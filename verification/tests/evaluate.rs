use k256::ecdsa::SigningKey;
use snarkvm_console::algorithms::{ECDSASignature, Keccak256, Sha3_256};
use snarkvm_console::network::prelude::{ToBits, ToBitsRaw, ToBytes, ToFields};
use snarkvm_console::network::{MainnetV0, Network};
use snarkvm_console::program::{Literal, LiteralType as ConsoleLiteralType, Plaintext};
use snarkvm_console::types::Scalar;
use std::str::FromStr;
use synthesizer_program::commit::{evaluate_commit, CommitInstruction};
use synthesizer_program::ecdsa::{evaluate_ecdsa_verification, ECDSAVerify};
use synthesizer_program::hash::{evaluate_hash, HashInstruction};
use synthesizer_program::plaintext_bits::{as_bit_array, as_byte_array, as_field_array, PlaintextValue};
use synthesizer_program::snark::{evaluate_varuna_proof, SnarkVerification};
use synthesizer_program::types::{LiteralType, PlaintextType};
use synthesizer_program::variants::{CommitVariant, ECDSAVerifyVariant, HashVariant, SnarkVerifyVariant};

fn ty(text: &str) -> PlaintextType {
    PlaintextType::from_str(text).unwrap()
}

fn literal(text: &str) -> PlaintextValue {
    PlaintextValue::Literal(text.to_string())
}

fn console(text: &str) -> Plaintext<MainnetV0> {
    Plaintext::from_str(text).unwrap()
}

fn cast(literal: Literal<MainnetV0>, to: ConsoleLiteralType) -> String {
    literal.cast_lossy(to).unwrap().to_string()
}

#[test]
fn hash_to_a_literal_is_console_hash_cast_to_the_type() {
    let value = literal("7u64");
    let bits = console("7u64").to_bits_le();
    let raw = console("7u64").to_bits_raw_le();
    let group = MainnetV0::hash_to_group_bhp256(&bits).unwrap();
    assert_eq!(
        evaluate_hash(HashVariant::HashBHP256, &value, &ty("field")),
        Some(literal(&cast(Literal::Group(group), ConsoleLiteralType::Field)))
    );
    assert_eq!(
        evaluate_hash(HashVariant::HashBHP256, &value, &ty("group")),
        Some(literal(&Literal::<MainnetV0>::Group(group).to_string()))
    );
    let raw_group = MainnetV0::hash_to_group_ped64(&raw).unwrap();
    assert_eq!(
        evaluate_hash(HashVariant::HashPED64Raw, &value, &ty("u32")),
        Some(literal(&cast(Literal::Group(raw_group), ConsoleLiteralType::U32)))
    );
    // Keccak-256 of the bits, then BHP256 to a group element.
    let keccak = MainnetV0::hash_keccak256(&bits).unwrap();
    let keccak_group = MainnetV0::hash_to_group_bhp256(&keccak).unwrap();
    assert_eq!(
        evaluate_hash(HashVariant::HashKeccak256, &value, &ty("scalar")),
        Some(literal(&cast(Literal::Group(keccak_group), ConsoleLiteralType::Scalar)))
    );
}

#[test]
fn poseidon_hashes_fields_to_a_field_or_a_group() {
    let value = PlaintextValue::Array(vec![literal("1field"), literal("2field")]);
    let fields = console("[1field, 2field]").to_fields().unwrap();
    let field = MainnetV0::hash_psd2(&fields).unwrap();
    assert_eq!(
        evaluate_hash(HashVariant::HashPSD2, &value, &ty("field")),
        Some(literal(&Literal::<MainnetV0>::Field(field).to_string()))
    );
    let group = MainnetV0::hash_to_group_psd2(&fields).unwrap();
    assert_eq!(
        evaluate_hash(HashVariant::HashPSD2, &value, &ty("address")),
        Some(literal(&cast(Literal::Group(group), ConsoleLiteralType::Address)))
    );
}

#[test]
fn native_hashes_give_the_bits_of_the_digest() {
    let value = literal("255u8");
    let digest = MainnetV0::hash_sha3_256(&console("255u8").to_bits_raw_le()).unwrap();
    let array = evaluate_hash(HashVariant::HashSha3_256NativeRaw, &value, &ty("[boolean; 256u32]")).unwrap();
    assert_eq!(as_bit_array(&array).unwrap(), digest);
    // The destination must have the digest's length.
    assert_eq!(evaluate_hash(HashVariant::HashSha3_256NativeRaw, &value, &ty("[boolean; 255u32]")), None);
    // A raw input for Keccak must fill whole bytes: a boolean is one bit.
    assert_eq!(evaluate_hash(HashVariant::HashKeccak256NativeRaw, &literal("true"), &ty("[boolean; 256u32]")), None);
    assert!(evaluate_hash(HashVariant::HashKeccak256Native, &literal("true"), &ty("[boolean; 256u32]")).is_some());
}

#[test]
fn hash_refuses_destinations_that_do_not_fit() {
    let value = literal("7u64");
    assert_eq!(evaluate_hash(HashVariant::HashBHP256, &value, &ty("[boolean; 256u32]")), None);
    assert_eq!(evaluate_hash(HashVariant::HashKeccak256Native, &value, &ty("field")), None);
    assert_eq!(evaluate_hash(HashVariant::HashManyPSD2, &value, &ty("field")), None);
}

#[test]
fn hash_instruction_evaluates_its_operand() {
    let hash = HashInstruction::from_str(HashVariant::HashBHP512, "hash.bhp512 r0 into r1 as field").unwrap();
    let bits = console("{ a: 1u8, b: 2u8 }").to_bits_le();
    let group = MainnetV0::hash_to_group_bhp512(&bits).unwrap();
    let value = PlaintextValue::Struct(
        vec![
            synthesizer_program::operand::Identifier { name: "a".to_string() },
            synthesizer_program::operand::Identifier { name: "b".to_string() },
        ],
        vec![literal("1u8"), literal("2u8")],
    );
    assert_eq!(hash.evaluate(&value), Some(literal(&cast(Literal::Group(group), ConsoleLiteralType::Field))));
}

#[test]
fn commit_is_console_commitment_cast_to_the_type() {
    let randomizer = Scalar::<MainnetV0>::from_str("5scalar").unwrap();
    let bits = console("3u32").to_bits_le();
    let group = MainnetV0::commit_to_group_bhp256(&bits, &randomizer).unwrap();
    assert_eq!(
        evaluate_commit(CommitVariant::CommitBHP256, &literal("3u32"), "5scalar", LiteralType::Field),
        Some(cast(Literal::Group(group), ConsoleLiteralType::Field))
    );
    let raw_group = MainnetV0::commit_to_group_ped128(&console("3u32").to_bits_raw_le(), &randomizer).unwrap();
    assert_eq!(
        evaluate_commit(CommitVariant::CommitPED128Raw, &literal("3u32"), "5scalar", LiteralType::Group),
        Some(Literal::<MainnetV0>::Group(raw_group).to_string())
    );
    // The randomizer must be a scalar.
    assert_eq!(evaluate_commit(CommitVariant::CommitBHP256, &literal("3u32"), "5u8", LiteralType::Field), None);

    let commit = CommitInstruction::from_str(0, "commit.bhp256 r0 r1 into r2 as field").unwrap();
    assert_eq!(
        commit.evaluate(&literal("3u32"), &literal("5scalar")),
        Some(literal(&cast(Literal::Group(group), ConsoleLiteralType::Field)))
    );
    assert_eq!(commit.evaluate(&literal("3u32"), &PlaintextValue::Array(vec![literal("5scalar")])), None);
}

fn byte_array(bytes: &[u8]) -> PlaintextValue {
    PlaintextValue::Array(bytes.iter().map(|b| literal(&format!("{b}u8"))).collect())
}

fn byte_text(bytes: &[u8]) -> String {
    format!("[{}]", bytes.iter().map(|b| format!("{b}u8")).collect::<Vec<_>>().join(", "))
}

fn pack(bits: &[bool]) -> Vec<u8> {
    bits.chunks(8).map(|c| c.iter().enumerate().fold(0u8, |v, (i, b)| v | ((*b as u8) << i))).collect()
}

#[test]
fn ecdsa_verification_checks_the_signature() {
    let signing_key = SigningKey::from_slice(&[7u8; 32]).unwrap();
    let key = signing_key.verifying_key().to_sec1_bytes().to_vec();
    let message_bytes = [1u8, 2, 3, 4, 5];
    let message = byte_array(&message_bytes);
    let raw_bits = console(&byte_text(&message_bytes)).to_bits_raw_le();
    let signature = ECDSASignature::sign(&signing_key, &Keccak256::default(), &raw_bits).unwrap();
    let signature_value = byte_array(&signature.to_bytes_le().unwrap());

    let verify = |v: ECDSAVerifyVariant, k: &PlaintextValue, m: &PlaintextValue| {
        evaluate_ecdsa_verification(v, &signature_value, k, m)
    };
    assert_eq!(verify(ECDSAVerifyVariant::HashKeccak256Raw, &byte_array(&key), &message), Some(true));
    // Another message, another digest or the bits with their metadata do not verify.
    assert_eq!(verify(ECDSAVerifyVariant::HashKeccak256Raw, &byte_array(&key), &byte_array(&[1u8, 2, 3, 4, 6])), Some(false));
    assert_eq!(verify(ECDSAVerifyVariant::HashSha3_256Raw, &byte_array(&key), &message), Some(false));
    assert_eq!(verify(ECDSAVerifyVariant::HashKeccak256, &byte_array(&key), &message), Some(false));
    // The digest itself may be given.
    let digest = pack(&MainnetV0::hash_keccak256(&raw_bits).unwrap());
    assert_eq!(verify(ECDSAVerifyVariant::Digest, &byte_array(&key), &byte_array(&digest)), Some(true));
    // The Ethereum address of the key.
    let address = ECDSASignature::ethereum_address_from_public_key(signing_key.verifying_key()).unwrap();
    assert_eq!(verify(ECDSAVerifyVariant::HashKeccak256Eth, &byte_array(&address), &message), Some(true));
    assert_eq!(verify(ECDSAVerifyVariant::DigestEth, &byte_array(&address), &byte_array(&digest)), Some(true));
    // An address must be 20 bytes, a key must be a key, a signature must be a signature.
    assert_eq!(verify(ECDSAVerifyVariant::HashKeccak256Eth, &byte_array(&address[..19]), &message), None);
    assert_eq!(verify(ECDSAVerifyVariant::HashKeccak256Raw, &byte_array(&[0u8; 33]), &message), None);
    assert_eq!(
        evaluate_ecdsa_verification(ECDSAVerifyVariant::HashKeccak256Raw, &byte_array(&[0u8; 3]), &byte_array(&key), &message),
        None
    );

    // A signature over SHA3-256 of the bits with metadata.
    let bits = console(&byte_text(&message_bytes)).to_bits_le();
    let sha_signature = ECDSASignature::sign(&signing_key, &Sha3_256::default(), &bits).unwrap();
    let instruction = ECDSAVerify::from_str(ECDSAVerifyVariant::HashSha3_256, "ecdsa.verify.sha3_256 r0 r1 r2 into r3").unwrap();
    assert_eq!(
        instruction.finalize(&byte_array(&sha_signature.to_bytes_le().unwrap()), &byte_array(&key), &message),
        Some(literal("true"))
    );
    assert_eq!(instruction.finalize(&signature_value, &byte_array(&key), &message), Some(literal("false")));
}

#[test]
fn byte_and_field_arrays_are_read_from_literals() {
    assert_eq!(as_byte_array(&byte_array(&[0, 7, 255])), Some(vec![0u8, 7, 255]));
    assert_eq!(as_byte_array(&PlaintextValue::Array(vec![literal("7u8"), literal("7u16")])), None);
    assert_eq!(as_byte_array(&literal("7u8")), None);
    let fields = PlaintextValue::Array(vec![literal("1field"), literal("0field")]);
    assert_eq!(as_field_array(&fields), Some(vec!["1field".to_string(), "0field".to_string()]));
    assert_eq!(as_field_array(&PlaintextValue::Array(vec![literal("1field"), literal("1u8")])), None);
}

#[test]
fn snark_verification_refuses_what_it_cannot_read() {
    let key = byte_array(&[1, 2, 3]);
    let version = literal("1u8");
    let inputs = PlaintextValue::Array(vec![literal("1field")]);
    let proof = byte_array(&[4, 5, 6]);
    // The bytes are not a verifying key.
    assert_eq!(evaluate_varuna_proof(SnarkVerifyVariant::Varuna, "snark.verify", &key, &version, &inputs, &proof), None);
    // The key must be a byte array.
    assert_eq!(
        evaluate_varuna_proof(SnarkVerifyVariant::Varuna, "snark.verify", &literal("1u8"), &version, &inputs, &proof),
        None
    );
    // A batch takes an array of keys and, for each, an array of rows of fields.
    let keys = PlaintextValue::Array(vec![key]);
    let batch = PlaintextValue::Array(vec![PlaintextValue::Array(vec![inputs])]);
    assert_eq!(
        evaluate_varuna_proof(SnarkVerifyVariant::VarunaBatch, "snark.verify", &keys, &version, &batch, &proof),
        None
    );
    let snark = SnarkVerification::from_str(SnarkVerifyVariant::Varuna, "snark.verify r0 r1 r2 r3 into r4").unwrap();
    assert_eq!(snark.finalize(&byte_array(&[1, 2, 3]), &version, &PlaintextValue::Array(vec![]), &proof), None);
}

fn many_u128(n: usize) -> PlaintextValue {
    PlaintextValue::Array((0..n).map(|_| literal("0u128")).collect())
}

#[test]
fn bits_fit_refuses_a_part_too_large_for_its_length() {
    // Each element has 154 bits; 600 of them make an array of more than 65535 bits.
    let big = many_u128(600);
    assert!(big.bits_fit());
    assert!(console(&big.to_string()).to_bits_le().len() > 65535);
    let member = PlaintextValue::Struct(
        vec![synthesizer_program::operand::Identifier { name: "a".to_string() }],
        vec![many_u128(600)],
    );
    assert!(!member.bits_fit());
    assert!(!PlaintextValue::Array(vec![many_u128(600)]).bits_fit());
    assert!(PlaintextValue::Array(vec![many_u128(300)]).bits_fit());
    assert!(literal("1u8").bits_fit());
}

#[test]
fn hash_instruction_refuses_a_value_console_cannot_write() {
    let member = PlaintextValue::Struct(
        vec![synthesizer_program::operand::Identifier { name: "a".to_string() }],
        vec![many_u128(600)],
    );
    let (_, hash) = HashInstruction::parse(HashVariant::HashBHP256, "hash.bhp256 r0 into r1 as field").unwrap();
    assert_eq!(hash.evaluate(&member), None);
    let small = PlaintextValue::Struct(
        vec![synthesizer_program::operand::Identifier { name: "a".to_string() }],
        vec![literal("7u64")],
    );
    let bits = console("{ a: 7u64 }").to_bits_le();
    let group = MainnetV0::hash_to_group_bhp256(&bits).unwrap();
    assert_eq!(hash.evaluate(&small), Some(literal(&cast(Literal::Group(group), ConsoleLiteralType::Field))));
}

#[test]
fn commit_instruction_refuses_a_value_console_cannot_write() {
    let member = PlaintextValue::Struct(
        vec![synthesizer_program::operand::Identifier { name: "a".to_string() }],
        vec![many_u128(600)],
    );
    let commit = CommitInstruction::from_str(0, "commit.bhp256 r0 r1 into r2 as field").unwrap();
    assert_eq!(commit.evaluate(&member, &literal("5scalar")), None);
}
