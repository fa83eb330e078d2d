use synthesizer_program::hash::HashInstruction;
use synthesizer_program::operand::{Identifier, Operand, ProgramID, Register};
use synthesizer_program::plaintext::parse_plaintext_type;
use synthesizer_program::types::{LiteralType, PlaintextType, RegisterType, TypeError};
use synthesizer_program::variants::{HashVariant, NUM_HASH_VARIANTS};

fn lit(l: LiteralType) -> PlaintextType {
    PlaintextType::Literal(l)
}

fn bits(n: u32) -> PlaintextType {
    PlaintextType::Array(Box::new(lit(LiteralType::Boolean)), n)
}

fn operand(text: &str) -> Operand {
    Operand::from_str(text).unwrap()
}

fn register(text: &str) -> Register {
    match Operand::from_str(text).unwrap() {
        Operand::Register(r) => r,
        _ => panic!("not a register: {text}"),
    }
}

fn sample_valid_destination_types(variant: u8) -> Vec<PlaintextType> {
    match variant {
        0..=32 => vec![
            lit(LiteralType::Address),
            lit(LiteralType::Field),
            lit(LiteralType::Group),
            lit(LiteralType::I8),
            lit(LiteralType::I16),
            lit(LiteralType::I32),
            lit(LiteralType::I64),
            lit(LiteralType::I128),
            lit(LiteralType::U8),
            lit(LiteralType::U16),
            lit(LiteralType::U32),
            lit(LiteralType::U64),
            lit(LiteralType::U128),
            lit(LiteralType::Scalar),
        ],
        33..=44 => [1u32, 8, 160, 256, 384, 512, 1000, 2048, 31, 7].iter().map(|n| bits(*n)).collect(),
        _ => panic!("Invalid 'hash' instruction opcode"),
    }
}

fn run_test(variant: u8) {
    let hash_variant = HashVariant::new(variant);
    let opcode = hash_variant.opcode();
    for destination_type in sample_valid_destination_types(variant) {
        let instruction = format!("{opcode} r0 into r1 as {}", destination_type.to_string());
        let (string, hash) = HashInstruction::parse(hash_variant, &instruction).unwrap();
        assert!(string.is_empty(), "Parser did not consume all of the string: '{string}'");
        assert_eq!(hash.operands().len(), 1, "The number of operands is incorrect");
        assert_eq!(hash.operands()[0], operand("r0"), "The first operand is incorrect");
        assert_eq!(*hash.destination(), register("r1"), "The destination register is incorrect");
        assert_eq!(hash.destination_type(), &destination_type, "The destination type is incorrect");
    }
}

#[test]
fn hash_test_parse() {
    for variant in 0..NUM_HASH_VARIANTS {
        // The `hash_many` variants take two operands.
        if (15..=17).contains(&variant) {
            continue;
        }
        run_test(variant);
    }
}

#[test]
fn hash_many_takes_two_operands() {
    let (rest, hash) = HashInstruction::parse(HashVariant::new(15), "hash_many.psd2 r0 r1 into r2 as field").unwrap();
    assert!(rest.is_empty());
    assert_eq!(hash.operands(), &vec![operand("r0"), operand("r1")]);
    assert!(HashInstruction::parse(HashVariant::new(15), "hash_many.psd2 r0 into r2 as field").is_none());
}

#[test]
fn hash_parse_refuses_boolean_string_and_identifier() {
    let v = HashVariant::new(0);
    assert!(HashInstruction::parse(v, "hash.bhp256 r0 into r1 as boolean").is_none());
    assert!(HashInstruction::parse(v, "hash.bhp256 r0 into r1 as string").is_none());
    assert!(HashInstruction::parse(v, "hash.bhp256 r0 into r1 as identifier").is_none());
    // A struct passes the parser; `new` and the type check refuse it.
    let (_, hash) = HashInstruction::parse(v, "hash.bhp256 r0 into r1 as token").unwrap();
    assert_eq!(hash.destination_type(), &PlaintextType::Struct(Identifier { name: "token".to_string() }));
    let inputs = vec![RegisterType::Plaintext(lit(LiteralType::Field))];
    assert!(matches!(hash.output_types(&inputs, None), Err(TypeError::DestinationType)));
}

#[test]
fn hash_display_round_trip() {
    for text in [
        "hash.bhp512 r0 into r1 as u64",
        "hash.keccak256.native r3.owner into r4 as [boolean; 256u32]",
        "hash.psd2 1field into r1 as scalar",
    ] {
        let (rest, hash) = HashInstruction::parse(HashVariant::new(hash_index(text)), text).unwrap();
        assert!(rest.is_empty());
        assert_eq!(hash.to_string(), text);
    }
}

fn hash_index(text: &str) -> u8 {
    let opcode = text.split(' ').next().unwrap();
    (0..NUM_HASH_VARIANTS).find(|v| HashVariant::new(*v).opcode() == opcode).unwrap()
}

#[test]
fn hash_new_checks_operands_and_type() {
    let v = HashVariant::new(1);
    assert!(matches!(HashInstruction::new(v, vec![], register("r1"), lit(LiteralType::Field)), Err(TypeError::OperandCount)));
    assert!(matches!(
        HashInstruction::new(v, vec![operand("r0")], register("r1"), bits(8)),
        Err(TypeError::DestinationType)
    ));
    let hash = HashInstruction::new(v, vec![operand("r0")], register("r1"), lit(LiteralType::Field)).unwrap();
    assert_eq!(hash.to_string(), "hash.bhp512 r0 into r1 as field");
    let inputs = vec![RegisterType::Plaintext(lit(LiteralType::U8))];
    assert_eq!(hash.output_types(&inputs, None).unwrap(), vec![RegisterType::Plaintext(lit(LiteralType::Field))]);
    let native = HashVariant::new(33);
    let hash = HashInstruction::new(native, vec![operand("r0")], register("r1"), bits(256)).unwrap();
    assert!(matches!(hash.output_types(&inputs, None), Err(TypeError::UnknownSize)));
    assert!(matches!(hash.output_types(&inputs, Some(12)), Err(TypeError::NotByteAligned)));
    assert_eq!(hash.output_types(&inputs, Some(16)).unwrap(), vec![RegisterType::Plaintext(bits(256))]);
}

#[test]
fn hash_external_struct_destination() {
    let external = PlaintextType::ExternalStruct(
        ProgramID { name: "credits".to_string(), network: "aleo".to_string() },
        Identifier { name: "token".to_string() },
    );
    let (_, hash) = HashInstruction::parse(HashVariant::new(0), "hash.bhp256 r0 into r1 as credits.aleo/token").unwrap();
    assert_eq!(hash.destination_type(), &external);
    assert!(hash.contains_external_struct());
}

#[test]
fn plaintext_types_parse_and_print() {
    for text in ["field", "token", "credits.aleo/token", "[u8; 4u32]", "[[boolean; 8u32]; 2u32]", "[credits.aleo/token; 3u32]"] {
        let chars: Vec<char> = text.chars().collect();
        let (rest, t) = parse_plaintext_type(&chars).unwrap();
        assert_eq!(rest, 0);
        assert_eq!(t.to_string(), text);
    }
    let nested = PlaintextType::from_str("[[boolean; 8u32]; 2u32]").unwrap();
    assert_eq!(nested, PlaintextType::Array(Box::new(bits(8)), 2));
    assert_eq!(PlaintextType::from_str("field.public"), None);
}
