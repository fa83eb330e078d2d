use synthesizer_program::operand::{Operand, Register};
use synthesizer_program::serialize::{DeserializeInstruction, SerializeInstruction};
use synthesizer_program::types::{LiteralType, PlaintextType, RegisterType, TypeError};
use synthesizer_program::variants::{DeserializeVariant, SerializeVariant};

fn lit(l: LiteralType) -> PlaintextType {
    PlaintextType::Literal(l)
}

fn bits(n: u32) -> PlaintextType {
    PlaintextType::Array(Box::new(lit(LiteralType::Boolean)), n)
}

fn operand(text: &str) -> Operand {
    Operand::from_str(text).unwrap()
}

fn register(text: &str) -> Register {
    match Operand::from_str(text).unwrap() {
        Operand::Register(r) => r,
        _ => panic!("not a register: {text}"),
    }
}

fn valid_value_types() -> Vec<PlaintextType> {
    vec![
        lit(LiteralType::Address),
        lit(LiteralType::Field),
        lit(LiteralType::Group),
        lit(LiteralType::I8),
        lit(LiteralType::I16),
        lit(LiteralType::I32),
        lit(LiteralType::I128),
        lit(LiteralType::I64),
        lit(LiteralType::U8),
        lit(LiteralType::U16),
        lit(LiteralType::U32),
        lit(LiteralType::U64),
        lit(LiteralType::U128),
        lit(LiteralType::Scalar),
        lit(LiteralType::Identifier),
    ]
}

// Array lengths between 1 and the most elements an array may hold.
const LENGTHS: [u32; 5] = [1, 7, 64, 253, 2048];

fn run_serialize_parser_test(variant: u8) {
    for (i, source_type) in valid_value_types().iter().enumerate() {
        let opcode = SerializeVariant::opcode(variant);
        let destination_type = bits(LENGTHS[i % LENGTHS.len()]);
        let instruction = format!("{opcode} r0 ({}) into r1 ({})", source_type.to_string(), destination_type.to_string());
        let (string, serialize) = SerializeInstruction::parse(variant, &instruction).unwrap();
        assert!(string.is_empty(), "Parser did not consume all of the string: '{string}'");
        assert_eq!(serialize.operands().len(), 1, "The number of operands is incorrect");
        assert_eq!(serialize.operands()[0], operand("r0"), "The first operand is incorrect");
        assert_eq!(serialize.operand_type(), source_type, "The operand type is incorrect");
        assert_eq!(*serialize.destination(), register("r1"), "The destination register is incorrect");
        assert_eq!(serialize.destination_type(), &destination_type, "The destination type is incorrect");
    }
}

#[test]
fn serialize_test_parse() {
    run_serialize_parser_test(0);
    run_serialize_parser_test(1);
    SerializeInstruction::from_str(1, "serialize.bits.raw r0 (boolean) into r1 ([boolean; 1u32])").unwrap();
}

fn run_deserialize_parser_test(variant: u8) {
    for (i, destination_type) in valid_value_types().iter().enumerate() {
        let opcode = DeserializeVariant::opcode(variant);
        let source_type = bits(LENGTHS[i % LENGTHS.len()]);
        let instruction = format!("{opcode} r0 ({}) into r1 ({})", source_type.to_string(), destination_type.to_string());
        let (string, deserialize) = DeserializeInstruction::parse(variant, &instruction).unwrap();
        assert!(string.is_empty(), "Parser did not consume all of the string: '{string}'");
        assert_eq!(deserialize.operands().len(), 1, "The number of operands is incorrect");
        assert_eq!(deserialize.operands()[0], operand("r0"), "The first operand is incorrect");
        assert_eq!(deserialize.operand_type(), &source_type, "The operand type is incorrect");
        assert_eq!(*deserialize.destination(), register("r1"), "The destination register is incorrect");
        assert_eq!(deserialize.destination_type(), destination_type, "The destination type is incorrect");
    }
}

#[test]
fn deserialize_test_parse() {
    run_deserialize_parser_test(0);
    run_deserialize_parser_test(1);
}

#[test]
fn bits_ops_print_with_two_spaces_before_the_operand_type() {
    let serialize = SerializeInstruction::from_str(0, "serialize.bits r0 (u64) into r1 ([boolean; 64u32])").unwrap();
    assert_eq!(serialize.to_string(), "serialize.bits r0  (u64) into r1 ([boolean; 64u32])");
    let deserialize =
        DeserializeInstruction::from_str(1, "deserialize.bits.raw r0 ([boolean; 8u32]) into r1 ([u8; 1u32])").unwrap();
    assert_eq!(deserialize.to_string(), "deserialize.bits.raw r0  ([boolean; 8u32]) into r1 ([u8; 1u32])");
    // What is printed is read back.
    let again = SerializeInstruction::from_str(0, &serialize.to_string()).unwrap();
    assert_eq!(again.to_string(), serialize.to_string());
}

#[test]
fn bits_ops_refuse_types_that_are_not_bits() {
    assert!(SerializeInstruction::parse(0, "serialize.bits r0 (string) into r1 ([boolean; 8u32])").is_none());
    assert!(SerializeInstruction::parse(0, "serialize.bits r0 (u8) into r1 ([u8; 8u32])").is_none());
    assert!(SerializeInstruction::parse(0, "serialize.bits r0 (u8) into r1 (boolean)").is_none());
    assert!(SerializeInstruction::parse(0, "serialize.bits r0 (token) into r1 ([boolean; 8u32])").is_none());
    assert!(DeserializeInstruction::parse(0, "deserialize.bits r0 (u8) into r1 (u8)").is_none());
    assert!(DeserializeInstruction::parse(0, "deserialize.bits r0 ([boolean; 8u32]) into r1 (signature)").is_none());
    assert!(matches!(
        SerializeInstruction::new(0, vec![operand("r0")], lit(LiteralType::Signature), register("r1"), bits(8)),
        Err(TypeError::OperandType)
    ));
    assert!(matches!(
        DeserializeInstruction::new(0, vec![], bits(8), register("r1"), lit(LiteralType::U8)),
        Err(TypeError::OperandCount)
    ));
    assert!(matches!(
        DeserializeInstruction::new(0, vec![operand("r0")], bits(8), register("r1"), lit(LiteralType::String)),
        Err(TypeError::DestinationType)
    ));
}

#[test]
fn bits_ops_output_types() {
    let serialize = SerializeInstruction::new(0, vec![operand("r0")], lit(LiteralType::U64), register("r1"), bits(64)).unwrap();
    let inputs = vec![RegisterType::Plaintext(lit(LiteralType::U64))];
    assert_eq!(serialize.output_types(&inputs, Some(64)).unwrap(), vec![RegisterType::Plaintext(bits(64))]);
    assert!(matches!(serialize.output_types(&inputs, Some(72)), Err(TypeError::SizeMismatch)));
    assert!(matches!(serialize.output_types(&inputs, None), Err(TypeError::UnknownSize)));
    let other = vec![RegisterType::Plaintext(lit(LiteralType::U32))];
    assert!(matches!(serialize.output_types(&other, Some(64)), Err(TypeError::InputType(0))));
    assert!(matches!(serialize.output_types(&vec![], Some(64)), Err(TypeError::InputCount(1))));

    let deserialize =
        DeserializeInstruction::new(1, vec![operand("r0")], bits(32), register("r1"), lit(LiteralType::U32)).unwrap();
    let inputs = vec![RegisterType::Plaintext(bits(32))];
    assert_eq!(deserialize.output_types(&inputs, Some(32)).unwrap(), vec![RegisterType::Plaintext(lit(LiteralType::U32))]);
    assert!(matches!(deserialize.output_types(&inputs, Some(16)), Err(TypeError::SizeMismatch)));
}
