use snarkvm_console::network::prelude::{ToBits, ToBytes};
use snarkvm_console::network::{MainnetV0, Network};
use synthesizer_program::global_state::FinalizeGlobalState;

fn console_seed(round: u64, height: u32, timestamp: Option<i64>, weight: u128, target: u128) -> Vec<u8> {
    let hash = <MainnetV0 as Network>::BlockHash::default();
    let mut bits = round.to_bits_le();
    bits.extend(height.to_bits_le());
    bits.extend(weight.to_bits_le());
    bits.extend(target.to_bits_le());
    bits.extend((*hash).to_bits_le());
    assert_eq!(bits.len(), 605);
    if let Some(t) = timestamp {
        bits.extend(t.to_bits_le());
    }
    MainnetV0::hash_bhp768(&bits).unwrap().to_bytes_le().unwrap()
}

#[test]
fn global_state_seed_is_the_hash_of_the_block_parts() {
    let text = <MainnetV0 as Network>::BlockHash::default().to_string();
    let state = FinalizeGlobalState::new(7, 11, Some(1_700_000_000), 5, 9, &text, Some(100), None).unwrap();
    assert_eq!(state.random_seed().to_vec(), console_seed(7, 11, Some(1_700_000_000), 5, 9));
    assert_eq!(state.block_round(), 7);
    assert_eq!(state.block_height(), 11);
    assert_eq!(state.block_timestamp(), Some(1_700_000_000));
    assert_eq!(state.block_spend_limit(), Some(100));
    assert_eq!(state.block_synthesis_limit(), None);
    // A negative timestamp is hashed in two's complement.
    let state = FinalizeGlobalState::new(1, 2, Some(-5), u128::MAX, 3, &text, None, None).unwrap();
    assert_eq!(state.random_seed().to_vec(), console_seed(1, 2, Some(-5), u128::MAX, 3));
}

#[test]
fn genesis_global_state_is_the_state_of_block_zero() {
    let text = <MainnetV0 as Network>::BlockHash::default().to_string();
    let genesis = FinalizeGlobalState::new_genesis().unwrap();
    let zero = FinalizeGlobalState::new(0, 0, None, 0, 0, &text, None, None).unwrap();
    assert_eq!(genesis, zero);
    assert_eq!(genesis.random_seed().to_vec(), console_seed(0, 0, None, 0, 0));
    assert_eq!(genesis.block_timestamp(), None);
}

#[test]
fn global_state_needs_a_block_hash() {
    assert!(FinalizeGlobalState::new(0, 0, None, 0, 0, "not a hash", None, None).is_none());
}
