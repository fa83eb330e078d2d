use synthesizer_program::commit::CommitInstruction;
use synthesizer_program::plaintext::{literal_type_of_name, literal_type_text};
use synthesizer_program::operand::{Operand, Register};
use synthesizer_program::types::{LiteralType, PlaintextType, RegisterType, TypeError};

fn valid_destination_types() -> &'static [LiteralType] {
    &[LiteralType::Address, LiteralType::Field, LiteralType::Group]
}

fn operand(text: &str) -> Operand {
    Operand::from_str(text).unwrap()
}

fn register(text: &str) -> Register {
    match Operand::from_str(text).unwrap() {
        Operand::Register(r) => r,
        _ => panic!("not a register: {text}"),
    }
}

fn check_parse(variant: u8, opcode: &str) {
    for destination_type in valid_destination_types() {
        let instruction = format!("{opcode} r0 r1 into r2 as {}", literal_type_text(*destination_type));
        let (string, commit) = CommitInstruction::parse(variant, &instruction).unwrap();
        assert!(string.is_empty(), "Parser did not consume all of the string: '{string}'");
        assert_eq!(commit.operands().len(), 2, "The number of operands is incorrect");
        assert_eq!(commit.operands()[0], operand("r0"), "The first operand is incorrect");
        assert_eq!(commit.operands()[1], operand("r1"), "The second operand is incorrect");
        assert_eq!(*commit.destination(), register("r2"), "The destination register is incorrect");
        assert_eq!(commit.destination_type(), *destination_type, "The destination type is incorrect");
    }
}

#[test]
fn commit_test_parse() {
    check_parse(1, "commit.bhp512");
}

#[test]
fn test_parse_raw() {
    check_parse(6, "commit.bhp256.raw");
}

#[test]
fn commit_display_round_trip() {
    let text = "commit.ped64 r0 r1 into r2 as group";
    let (rest, commit) = CommitInstruction::parse(4, text).unwrap();
    assert!(rest.is_empty());
    assert_eq!(commit.to_string(), text);
}

#[test]
fn commit_parse_leaves_the_rest() {
    let (rest, commit) = CommitInstruction::parse(0, "commit.bhp256 r0 r1 into r2 as field;\n").unwrap();
    assert_eq!(rest, ";\n");
    assert_eq!(commit.destination_type(), LiteralType::Field);
}

#[test]
fn commit_parse_refuses_other_destination_types() {
    assert!(CommitInstruction::parse(1, "commit.bhp512 r0 r1 into r2 as u8").is_none());
    assert!(CommitInstruction::parse(1, "commit.bhp512 r0 r1 into r2 as scalar").is_none());
}

#[test]
fn commit_parse_refuses_another_opcode() {
    assert!(CommitInstruction::parse(1, "commit.bhp256 r0 r1 into r2 as field").is_none());
    assert!(CommitInstruction::parse(1, "commit.bhp512 r0 into r2 as field").is_none());
}

#[test]
fn commit_new_checks_operands_and_type() {
    let two = vec![operand("r0"), operand("r1")];
    assert!(matches!(
        CommitInstruction::new(0, vec![operand("r0")], register("r2"), LiteralType::Field),
        Err(TypeError::OperandCount)
    ));
    assert!(matches!(
        CommitInstruction::new(0, two.clone(), register("r2"), LiteralType::U64),
        Err(TypeError::DestinationType)
    ));
    let commit = CommitInstruction::new(0, two, register("r2"), LiteralType::Address).unwrap();
    assert_eq!(commit.to_string(), "commit.bhp256 r0 r1 into r2 as address");
}

#[test]
fn commit_output_types() {
    let commit = CommitInstruction::new(5, vec![operand("r0"), operand("r1")], register("r2"), LiteralType::Group)
        .unwrap();
    let inputs = vec![
        RegisterType::Plaintext(PlaintextType::Literal(LiteralType::Field)),
        RegisterType::Plaintext(PlaintextType::Literal(LiteralType::Scalar)),
    ];
    assert_eq!(
        commit.output_types(&inputs).unwrap(),
        vec![RegisterType::Plaintext(PlaintextType::Literal(LiteralType::Group))]
    );
    let one = vec![RegisterType::Plaintext(PlaintextType::Literal(LiteralType::Field))];
    assert!(matches!(commit.output_types(&one), Err(TypeError::InputCount(2))));
}

#[test]
fn literal_type_names_round_trip() {
    let name: Vec<char> = "signature".chars().collect();
    assert_eq!(literal_type_of_name(&name), Some(LiteralType::Signature));
    let name: Vec<char> = "float".chars().collect();
    assert_eq!(literal_type_of_name(&name), None);
}
