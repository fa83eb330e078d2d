use synthesizer_program::ecdsa::ECDSAVerify;
use synthesizer_program::operand::{Operand, Register};
use synthesizer_program::snark::SnarkVerification;
use synthesizer_program::types::{LiteralType, PlaintextType, RegisterType, TypeError};
use synthesizer_program::variants::{ECDSAVerifyVariant, SnarkVerifyVariant};

fn operand(text: &str) -> Operand {
    Operand::from_str(text).unwrap()
}

fn register(text: &str) -> Register {
    match Operand::from_str(text).unwrap() {
        Operand::Register(r) => r,
        _ => panic!("not a register: {text}"),
    }
}

fn check_ecdsa(variant: u8, text: &str) {
    let (string, is) = ECDSAVerify::parse(ECDSAVerifyVariant::new(variant), text).unwrap();
    assert!(string.is_empty(), "Parser did not consume all of the string: '{string}'");
    assert_eq!(is.operands().len(), 3, "The number of operands is incorrect");
    assert_eq!(is.operands()[0], operand("r0"), "The first operand is incorrect");
    assert_eq!(is.operands()[1], operand("r1"), "The second operand is incorrect");
    assert_eq!(is.operands()[2], operand("r2"), "The third operand is incorrect");
    assert_eq!(*is.destination(), register("r3"), "The destination register is incorrect");
}

#[test]
fn ecdsa_verify_test_parse() {
    check_ecdsa(0, "ecdsa.verify.digest r0 r1 r2 into r3");
    check_ecdsa(1, "ecdsa.verify.digest.eth r0 r1 r2 into r3");
    check_ecdsa(2, "ecdsa.verify.keccak256 r0 r1 r2 into r3");
    check_ecdsa(3, "ecdsa.verify.keccak256.raw r0 r1 r2 into r3");
    check_ecdsa(4, "ecdsa.verify.keccak256.eth r0 r1 r2 into r3");
}

fn check_snark(variant: u8, text: &str) {
    let (string, is) = SnarkVerification::parse(SnarkVerifyVariant::new(variant), text).unwrap();
    assert!(string.is_empty(), "Parser did not consume all of the string: '{string}'");
    assert_eq!(is.operands().len(), 4, "The number of operands is incorrect");
    assert_eq!(is.operands()[0], operand("r0"), "The first operand is incorrect");
    assert_eq!(is.operands()[1], operand("r1"), "The second operand is incorrect");
    assert_eq!(is.operands()[2], operand("r2"), "The third operand is incorrect");
    assert_eq!(is.operands()[3], operand("r3"), "The fourth operand is incorrect");
    assert_eq!(*is.destination(), register("r4"), "The destination register is incorrect");
}

#[test]
fn snark_verify_test_parse() {
    check_snark(0, "snark.verify r0 r1 r2 r3 into r4");
    check_snark(1, "snark.verify.batch r0 r1 r2 r3 into r4");
}

#[test]
fn verify_ops_print_back_what_they_read() {
    let text = "ecdsa.verify.digest r0.sig r1 1field into r3";
    assert_eq!(ECDSAVerify::from_str(ECDSAVerifyVariant::new(0), text).unwrap().to_string(), text);
    let text = "snark.verify.batch r0 1u8 r2 r3 into r4";
    assert_eq!(SnarkVerification::from_str(SnarkVerifyVariant::new(1), text).unwrap().to_string(), text);
}

#[test]
fn verify_ops_refuse_other_shapes() {
    // The single-proof variant does not read the batch opcode.
    assert!(SnarkVerification::parse(SnarkVerifyVariant::new(0), "snark.verify.batch r0 r1 r2 r3 into r4").is_none());
    assert!(SnarkVerification::parse(SnarkVerifyVariant::new(0), "snark.verify r0 r1 r2 into r4").is_none());
    assert!(ECDSAVerify::parse(ECDSAVerifyVariant::new(0), "ecdsa.verify.digest r0 r1 r2 r3 into r4").is_none());
    assert!(ECDSAVerify::from_str(ECDSAVerifyVariant::new(0), "ecdsa.verify.digest r0 r1 r2 into r3 ").is_none());
    let (rest, _) = ECDSAVerify::parse(ECDSAVerifyVariant::new(0), "ecdsa.verify.digest r0 r1 r2 into r3;").unwrap();
    assert_eq!(rest, ";");
}

#[test]
fn verify_ops_new_counts_operands() {
    let three = vec![operand("r0"), operand("r1"), operand("r2")];
    assert!(matches!(
        SnarkVerification::new(SnarkVerifyVariant::new(0), three.clone(), register("r4")),
        Err(TypeError::OperandCount)
    ));
    let ecdsa = ECDSAVerify::new(ECDSAVerifyVariant::new(2), three, register("r3")).unwrap();
    assert_eq!(ecdsa.to_string(), "ecdsa.verify.keccak256 r0 r1 r2 into r3");
    assert!(!ecdsa.contains_external_struct());
    let inputs = vec![RegisterType::Plaintext(PlaintextType::Literal(LiteralType::Field))];
    assert!(matches!(ecdsa.output_types(&inputs, None), Err(TypeError::InputCount(3))));
}
