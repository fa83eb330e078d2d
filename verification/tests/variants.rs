use synthesizer_program::variants::{ECDSAVerifyVariant, HashVariant, NUM_HASH_VARIANTS};

fn all_hash_variants() -> Vec<HashVariant> {
    (0..NUM_HASH_VARIANTS).map(HashVariant::new).collect()
}

#[test]
fn check_number_of_hash_variants() {
    let all = all_hash_variants();
    assert_eq!(all.len(), 45);
    // Every position names a distinct variant.
    for (i, variant) in all.iter().enumerate() {
        assert_eq!(variant.index() as usize, i);
    }
}

#[test]
fn check_byte_aligned_variants_all_have_one_opcode() {
    for variant in all_hash_variants() {
        if variant.requires_byte_alignment() {
            assert_eq!(variant.expected_num_operands(), 1)
        }
    }
}

#[test]
fn hash_variant_opcodes() {
    assert_eq!(HashVariant::new(0).opcode(), "hash.bhp256");
    assert_eq!(HashVariant::new(15).opcode(), "hash_many.psd2");
    assert_eq!(HashVariant::new(44).opcode(), "hash.sha3_512.native.raw");
    assert!(HashVariant::new(18).is_raw());
    assert!(!HashVariant::new(0).is_raw());
    assert!(!HashVariant::HashKeccak256Native.is_raw());
    assert!(!HashVariant::HashSha3_512Native.is_raw());
    assert!(HashVariant::HashKeccak256NativeRaw.is_raw());
    assert!(HashVariant::HashSha3_512NativeRaw.is_raw());
    assert_eq!(HashVariant::new(15).expected_num_operands(), 2);
}

#[test]
fn ecdsa_variant_opcodes() {
    assert_eq!(ECDSAVerifyVariant::new(0).opcode(), "ecdsa.verify.digest");
    assert_eq!(ECDSAVerifyVariant::new(1).opcode(), "ecdsa.verify.digest.eth");
    assert!(ECDSAVerifyVariant::new(3).is_raw());
    assert_eq!(ECDSAVerifyVariant::new(19).index(), 19);
}
