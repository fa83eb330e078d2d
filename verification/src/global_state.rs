//! The state of the block that finalize blocks run in.
use vstd::prelude::*;

use crate::console::{console_bhp768_bytes, console_block_hash_bits};
use crate::text::chars_of;

verus! {

/// What a finalize block may read of the block it runs in: the round, the height, the
/// timestamp (if the block has one), the block's random seed, and the block's spend and
/// synthesis limits (if it has them).
#[derive(Clone, Copy, Debug, PartialEq, Eq)]
pub struct FinalizeGlobalState {
    block_round: u64,
    block_height: u32,
    block_timestamp: Option<i64>,
    random_seed: [u8; 32],
    block_spend_limit: Option<u64>,
    block_synthesis_limit: Option<u64>,
}

/// The mathematical value of a global state.
pub ghost struct GlobalStateView {
    pub block_round: u64,
    pub block_height: u32,
    pub block_timestamp: Option<i64>,
    pub random_seed: [u8; 32],
    pub block_spend_limit: Option<u64>,
    pub block_synthesis_limit: Option<u64>,
}

impl View for FinalizeGlobalState {
    type V = GlobalStateView;

    closed spec fn view(&self) -> GlobalStateView {
        GlobalStateView {
            block_round: self.block_round,
            block_height: self.block_height,
            block_timestamp: self.block_timestamp,
            random_seed: self.random_seed,
            block_spend_limit: self.block_spend_limit,
            block_synthesis_limit: self.block_synthesis_limit,
        }
    }
}

impl FinalizeGlobalState {
    /// Makes a global state of the given parts.
    pub fn from(
        block_round: u64,
        block_height: u32,
        block_timestamp: Option<i64>,
        random_seed: [u8; 32],
        block_spend_limit: Option<u64>,
        block_synthesis_limit: Option<u64>,
    ) -> (r: FinalizeGlobalState)
        ensures
            r@.block_round == block_round,
            r@.block_height == block_height,
            r@.block_timestamp == block_timestamp,
            r@.random_seed == random_seed,
            r@.block_spend_limit == block_spend_limit,
            r@.block_synthesis_limit == block_synthesis_limit,
    {
        FinalizeGlobalState {
            block_round,
            block_height,
            block_timestamp,
            random_seed,
            block_spend_limit,
            block_synthesis_limit,
        }
    }

    /// The block round.
    pub fn block_round(&self) -> (r: u64)
        ensures
            r == self@.block_round,
    {
        self.block_round
    }

    /// The block height.
    pub fn block_height(&self) -> (r: u32)
        ensures
            r == self@.block_height,
    {
        self.block_height
    }

    /// The block's random seed.
    pub fn random_seed(&self) -> (r: &[u8; 32])
        ensures
            *r == self@.random_seed,
    {
        &self.random_seed
    }

    /// The block timestamp, if the block has one.
    pub fn block_timestamp(&self) -> (r: Option<i64>)
        ensures
            r == self@.block_timestamp,
    {
        self.block_timestamp
    }

    /// The block's spend limit, if it has one.
    pub fn block_spend_limit(&self) -> (r: Option<u64>)
        ensures
            r == self@.block_spend_limit,
    {
        self.block_spend_limit
    }

    /// The block's synthesis limit, if it has one.
    pub fn block_synthesis_limit(&self) -> (r: Option<u64>)
        ensures
            r == self@.block_synthesis_limit,
    {
        self.block_synthesis_limit
    }
}

/// The little-endian bits of a 64-bit integer.
pub open spec fn u64_bits(v: u64) -> Seq<bool> {
    Seq::new(64, |i: int| (v >> (i as u64)) & 1 == 1)
}

/// The little-endian bits of a 32-bit integer.
pub open spec fn u32_bits(v: u32) -> Seq<bool> {
    Seq::new(32, |i: int| (v >> (i as u32)) & 1 == 1)
}

/// The little-endian bits of a 128-bit integer.
pub open spec fn u128_bits(v: u128) -> Seq<bool> {
    Seq::new(128, |i: int| (v >> (i as u128)) & 1 == 1)
}

/// What the random seed of a block hashes: the little-endian bits of the round, the height,
/// the cumulative weight and the cumulative proof target, the bits of the previous block's
/// hash, and the bits of the timestamp (in two's complement) where there is one.
pub open spec fn seed_preimage(
    block_round: u64,
    block_height: u32,
    block_timestamp: Option<i64>,
    block_cumulative_weight: u128,
    block_cumulative_proof_target: u128,
    previous_block_hash_bits: Seq<bool>,
) -> Seq<bool> {
    u64_bits(block_round) + u32_bits(block_height) + u128_bits(block_cumulative_weight) + u128_bits(
        block_cumulative_proof_target,
    ) + previous_block_hash_bits + match block_timestamp {
        Some(t) => u64_bits(t as u64),
        None => Seq::empty(),
    }
}

fn push_u64_bits(out: &mut Vec<bool>, v: u64)
    ensures
        final(out)@ == old(out)@ + u64_bits(v),
{
    let ghost start = out@;
    let mut i: u64 = 0;
    while i < 64
        invariant
            i <= 64,
            out@ == start + u64_bits(v).take(i as int),
        decreases 64 - i,
    {
        out.push((v >> i) & 1 == 1);
        i = i + 1;
        assert(u64_bits(v).take(i as int) =~= u64_bits(v).take(i - 1).push((v >> ((i - 1) as u64)) & 1 == 1));
    }
    assert(u64_bits(v).take(64) =~= u64_bits(v));
}

fn push_u32_bits(out: &mut Vec<bool>, v: u32)
    ensures
        final(out)@ == old(out)@ + u32_bits(v),
{
    let ghost start = out@;
    let mut i: u32 = 0;
    while i < 32
        invariant
            i <= 32,
            out@ == start + u32_bits(v).take(i as int),
        decreases 32 - i,
    {
        out.push((v >> i) & 1 == 1);
        i = i + 1;
        assert(u32_bits(v).take(i as int) =~= u32_bits(v).take(i - 1).push((v >> ((i - 1) as u32)) & 1 == 1));
    }
    assert(u32_bits(v).take(32) =~= u32_bits(v));
}

fn push_u128_bits(out: &mut Vec<bool>, v: u128)
    ensures
        final(out)@ == old(out)@ + u128_bits(v),
{
    let ghost start = out@;
    let mut i: u128 = 0;
    while i < 128
        invariant
            i <= 128,
            out@ == start + u128_bits(v).take(i as int),
        decreases 128 - i,
    {
        out.push((v >> i) & 1 == 1);
        i = i + 1;
        assert(u128_bits(v).take(i as int) =~= u128_bits(v).take(i - 1).push((v >> ((i - 1) as u128)) & 1 == 1));
    }
    assert(u128_bits(v).take(128) =~= u128_bits(v));
}

fn preimage(
    block_round: u64,
    block_height: u32,
    block_timestamp: Option<i64>,
    block_cumulative_weight: u128,
    block_cumulative_proof_target: u128,
    previous_block_hash_bits: &Vec<bool>,
) -> (r: Vec<bool>)
    ensures
        r@ == seed_preimage(
            block_round,
            block_height,
            block_timestamp,
            block_cumulative_weight,
            block_cumulative_proof_target,
            previous_block_hash_bits@,
        ),
{
    let mut bits: Vec<bool> = Vec::new();
    push_u64_bits(&mut bits, block_round);
    push_u32_bits(&mut bits, block_height);
    push_u128_bits(&mut bits, block_cumulative_weight);
    push_u128_bits(&mut bits, block_cumulative_proof_target);
    let mut i: usize = 0;
    let ghost start = bits@;
    while i < previous_block_hash_bits.len()
        invariant
            i <= previous_block_hash_bits@.len(),
            bits@ == start + previous_block_hash_bits@.take(i as int),
        decreases previous_block_hash_bits.len() - i,
    {
        bits.push(previous_block_hash_bits[i]);
        i = i + 1;
        assert(previous_block_hash_bits@.take(i as int) =~= previous_block_hash_bits@.take(i - 1).push(
            previous_block_hash_bits@[i - 1],
        ));
    }
    assert(previous_block_hash_bits@.take(i as int) =~= previous_block_hash_bits@);
    let ghost before_time = bits@;
    if let Some(t) = block_timestamp {
        push_u64_bits(&mut bits, t as u64);
    } else {
        assert(bits@ =~= before_time + Seq::<bool>::empty());
    }
    bits
}

/// The random seed of a block made of the given parts: the hash (`hash_bhp768`) of
/// `seed_preimage` as bytes, which must be 32 of them.
pub open spec fn spec_seed(
    block_round: u64,
    block_height: u32,
    block_timestamp: Option<i64>,
    block_cumulative_weight: u128,
    block_cumulative_proof_target: u128,
    previous_block_hash_bits: Seq<bool>,
) -> Option<Seq<u8>> {
    match console_bhp768_bytes(
        seed_preimage(
            block_round,
            block_height,
            block_timestamp,
            block_cumulative_weight,
            block_cumulative_proof_target,
            previous_block_hash_bits,
        ),
    ) {
        Some(seed) => if seed.len() == 32 {
            Some(seed)
        } else {
            None
        },
        None => None,
    }
}

/// The global state has the parts and the seed.
pub open spec fn state_is(
    g: GlobalStateView,
    block_round: u64,
    block_height: u32,
    block_timestamp: Option<i64>,
    seed: Seq<u8>,
    block_spend_limit: Option<u64>,
    block_synthesis_limit: Option<u64>,
) -> bool {
    &&& g.block_round == block_round
    &&& g.block_height == block_height
    &&& g.block_timestamp == block_timestamp
    &&& g.random_seed@ == seed
    &&& g.block_spend_limit == block_spend_limit
    &&& g.block_synthesis_limit == block_synthesis_limit
}

impl FinalizeGlobalState {
    fn new_from_hash_bits(
        block_round: u64,
        block_height: u32,
        block_timestamp: Option<i64>,
        block_cumulative_weight: u128,
        block_cumulative_proof_target: u128,
        previous_block_hash_bits: &Vec<bool>,
        block_spend_limit: Option<u64>,
        block_synthesis_limit: Option<u64>,
    ) -> (r: Option<FinalizeGlobalState>)
        ensures
            match spec_seed(
                block_round,
                block_height,
                block_timestamp,
                block_cumulative_weight,
                block_cumulative_proof_target,
                previous_block_hash_bits@,
            ) {
                Some(seed) => r matches Some(g) && state_is(
                    g@,
                    block_round,
                    block_height,
                    block_timestamp,
                    seed,
                    block_spend_limit,
                    block_synthesis_limit,
                ),
                None => r is None,
            },
    {
        let bits = preimage(
            block_round,
            block_height,
            block_timestamp,
            block_cumulative_weight,
            block_cumulative_proof_target,
            previous_block_hash_bits,
        );
        let seed = match crate::console::bhp768_bytes(bits.as_slice()) {
            Some(seed) => seed,
            None => return None,
        };
        if seed.len() != 32 {
            return None;
        }
        let mut random_seed = [0u8; 32];
        let mut i: usize = 0;
        while i < 32
            invariant
                i <= 32,
                seed@.len() == 32,
                forall|j: int| 0 <= j < i ==> random_seed@[j] == seed@[j],
            decreases 32 - i,
        {
            random_seed[i] = seed[i];
            i = i + 1;
        }
        assert(random_seed@ =~= seed@);
        Some(
            FinalizeGlobalState {
                block_round,
                block_height,
                block_timestamp,
                random_seed,
                block_spend_limit,
                block_synthesis_limit,
            },
        )
    }

    /// Makes the global state of a block from its round, height and timestamp, the cumulative
    /// weight and proof target, the previous block's hash (as console prints it) and the
    /// block's limits. The random seed is the hash of these parts (see `seed_preimage`).
    /// `None` where the text is not a block hash, or where the hash fails or does not give 32
    /// bytes.
    pub fn new(
        block_round: u64,
        block_height: u32,
        block_timestamp: Option<i64>,
        block_cumulative_weight: u128,
        block_cumulative_proof_target: u128,
        previous_block_hash: &str,
        block_spend_limit: Option<u64>,
        block_synthesis_limit: Option<u64>,
    ) -> (r: Option<FinalizeGlobalState>)
        ensures
            match console_block_hash_bits(previous_block_hash@) {
                Some(hash_bits) => match spec_seed(
                    block_round,
                    block_height,
                    block_timestamp,
                    block_cumulative_weight,
                    block_cumulative_proof_target,
                    hash_bits,
                ) {
                    Some(seed) => r matches Some(g) && state_is(
                        g@,
                        block_round,
                        block_height,
                        block_timestamp,
                        seed,
                        block_spend_limit,
                        block_synthesis_limit,
                    ),
                    None => r is None,
                },
                None => r is None,
            },
    {
        let hash_bits = match crate::console::block_hash_bits(&chars_of(previous_block_hash)) {
            Some(bits) => bits,
            None => return None,
        };
        FinalizeGlobalState::new_from_hash_bits(
            block_round,
            block_height,
            block_timestamp,
            block_cumulative_weight,
            block_cumulative_proof_target,
            &hash_bits,
            block_spend_limit,
            block_synthesis_limit,
        )
    }

    /// Makes the global state of the genesis block: round, height, cumulative weight and
    /// proof target zero, no timestamp and no limits, and the default (zero) previous hash.
    pub fn new_genesis() -> (r: Option<FinalizeGlobalState>)
        ensures
            match spec_seed(0, 0, None, 0, 0, Seq::new(253, |i: int| false)) {
                Some(seed) => r matches Some(g) && state_is(g@, 0, 0, None, seed, None, None),
                None => r is None,
            },
    {
        let hash_bits = crate::console::default_block_hash_bits();
        FinalizeGlobalState::new_from_hash_bits(0, 0, None, 0, 0, &hash_bits, None, None)
    }
}

} // verus!
