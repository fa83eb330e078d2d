use synthesizer_program::call_dynamic::CallDynamic;
use synthesizer_program::cast::{CastOperation, CastType};
use synthesizer_program::commit::CommitInstruction;
use synthesizer_program::ecdsa::ECDSAVerify;
use synthesizer_program::get_dynamic::GetDynamic;
use synthesizer_program::hash::HashInstruction;
use synthesizer_program::serialize::{DeserializeInstruction, SerializeInstruction};
use synthesizer_program::snark::SnarkVerification;
use synthesizer_program::variants::{ECDSAVerifyVariant, HashVariant, SnarkVerifyVariant};

fn with_rest(mut bytes: Vec<u8>) -> Vec<u8> {
    bytes.extend_from_slice(&[9, 8, 7]);
    bytes
}

#[test]
fn test_from_bytes() {
    let (string, get) = GetDynamic::parse("get.dynamic r0 r1 r2[r3] into r4 as u8;").unwrap();
    assert!(string.is_empty());
    let bytes_le = get.write_le().unwrap();
    let result = GetDynamic::read_le(&bytes_le);
    assert!(result.is_some());
    let (left, read) = result.unwrap();
    assert_eq!(left, 0);
    assert_eq!(read, get);
}

#[test]
fn get_dynamic_bytes_leave_what_follows() {
    let get = GetDynamic::from_str("get.dynamic 'credits' 'aleo' 'account'[r0.owner] into r1 as [u64; 2u32];").unwrap();
    let (left, read) = GetDynamic::read_le(&with_rest(get.write_le().unwrap())).unwrap();
    assert_eq!(left, 3);
    assert_eq!(read, get);
}

#[test]
fn cast_types_round_trip_through_bytes() {
    for text in ["group.x", "group.y", "dynamic.record", "token.record", "credits.aleo/token.record", "u64", "[[u8; 4u32]; 2u32]", "foo"] {
        let cast_type = CastType::from_str(text).unwrap();
        let bytes = cast_type.write_le().unwrap();
        let (left, read) = CastType::read_le(&with_rest(bytes)).unwrap();
        assert_eq!(left, 3, "{text}");
        assert_eq!(read, cast_type, "{text}");
    }
    assert_eq!(CastType::GroupXCoordinate.write_le().unwrap(), vec![0]);
    assert_eq!(CastType::DynamicRecord.write_le().unwrap(), vec![5]);
    assert!(CastType::read_le(&[6]).is_none());
}

#[test]
fn casts_round_trip_through_bytes() {
    for (variant, text) in [
        (0u8, "cast r0.owner r0.token_amount into r1 as token.record"),
        (0, "cast r0 into r1 as dynamic.record"),
        (1, "cast.lossy r0 into r1 as u8"),
        (0, "cast r0 r1 into r2 as credits.aleo/point"),
    ] {
        let cast = CastOperation::from_str(variant, text).unwrap();
        let bytes = cast.write_le().unwrap();
        let (left, read) = CastOperation::read_le(variant, &with_rest(bytes)).unwrap();
        assert_eq!(left, 3, "{text}");
        assert_eq!(read, cast, "{text}");
    }
}

#[test]
fn casts_with_many_operands_count_them_in_three_bytes() {
    let mut text = "cast".to_string();
    for i in 0..300 {
        text.push_str(&format!(" r{i}"));
    }
    text.push_str(" into r300 as [u8; 300u32]");
    let cast = CastOperation::from_str(0, &text).unwrap();
    let bytes = cast.write_le().unwrap();
    assert_eq!(&bytes[0..3], &[255, 44, 1]);
    let (left, read) = CastOperation::read_le(0, &bytes).unwrap();
    assert_eq!(left, 0);
    assert_eq!(read, cast);
    // No cast has zero operands.
    assert!(CastOperation::read_le(0, &[0]).is_none());
}

#[test]
fn operations_round_trip_through_bytes() {
    let commit = CommitInstruction::from_str(1, "commit.bhp512 r0 r1 into r2 as group").unwrap();
    let (left, read) = CommitInstruction::read_le(1, &with_rest(commit.write_le().unwrap())).unwrap();
    assert_eq!((left, read), (3, commit));

    let hash = HashInstruction::from_str(HashVariant::new(33), "hash.keccak256.native r0 into r1 as [boolean; 256u32]").unwrap();
    let (left, read) = HashInstruction::read_le(HashVariant::new(33), &with_rest(hash.write_le().unwrap())).unwrap();
    assert_eq!((left, read), (3, hash));

    let ecdsa = ECDSAVerify::from_str(ECDSAVerifyVariant::new(2), "ecdsa.verify.keccak256 r0 r1 r2 into r3").unwrap();
    let (left, read) = ECDSAVerify::read_le(ECDSAVerifyVariant::new(2), &with_rest(ecdsa.write_le().unwrap())).unwrap();
    assert_eq!((left, read), (3, ecdsa));

    let snark = SnarkVerification::from_str(SnarkVerifyVariant::new(0), "snark.verify r0 r1 r2 r3 into r4").unwrap();
    let (left, read) = SnarkVerification::read_le(SnarkVerifyVariant::new(0), &with_rest(snark.write_le().unwrap())).unwrap();
    assert_eq!((left, read), (3, snark));

    let serialize = SerializeInstruction::from_str(0, "serialize.bits r0 (u64) into r1 ([boolean; 64u32])").unwrap();
    let (left, read) = SerializeInstruction::read_le(0, &with_rest(serialize.write_le().unwrap())).unwrap();
    assert_eq!((left, read), (3, serialize));

    let deserialize = DeserializeInstruction::from_str(1, "deserialize.bits.raw r0 ([boolean; 8u32]) into r1 ([u8; 1u32])").unwrap();
    let (left, read) = DeserializeInstruction::read_le(1, &with_rest(deserialize.write_le().unwrap())).unwrap();
    assert_eq!((left, read), (3, deserialize));
}

#[test]
fn commit_bytes_end_with_the_type_id() {
    let commit = CommitInstruction::from_str(0, "commit.bhp256 r0 r1 into r2 as field").unwrap();
    let mut bytes = commit.write_le().unwrap();
    assert_eq!(*bytes.last().unwrap(), 2);
    // A `commit` instruction may not produce a `u8`.
    *bytes.last_mut().unwrap() = 9;
    assert!(CommitInstruction::read_le(0, &bytes).is_none());
    *bytes.last_mut().unwrap() = 18;
    assert!(CommitInstruction::read_le(0, &bytes).is_none());
}

#[test]
fn call_dynamic_round_trips_through_bytes() {
    for text in [
        "call.dynamic r0 r1 r2",
        "call.dynamic r0 r1 r2 with r3 r4 (as u8.public foo.private) into r5 r6 (as u8.private u64.public)",
        "call.dynamic 'credits' 'aleo' 'transfer_public' with aleo1wfyyj2uvwuqw0c0dqa5x70wrawnlkkvuepn4y08xyaqfqqwweqys39jayw 100u64 (as address.private u64.private) into r0 (as dynamic.future)",
    ] {
        let call = CallDynamic::from_str(text).unwrap();
        let bytes = call.write_le().unwrap();
        assert_eq!(bytes[0] as usize, call.operands().len());
        let (left, read) = CallDynamic::read_le(&with_rest(bytes)).unwrap();
        assert_eq!(left, 3, "{text}");
        assert_eq!(read.to_string(), call.to_string(), "{text}");
    }
    // Fewer than three operands are refused.
    assert!(CallDynamic::read_le(&[2]).is_none());
}
