use synthesizer_program::cast::{CastOperation, CastType};
use synthesizer_program::console::data_limits;
use synthesizer_program::operand::{Identifier, Operand, ProgramID, Register};
use synthesizer_program::types::{LiteralType, PlaintextType, RegisterType, TypeError};

fn operand(text: &str) -> Operand {
    Operand::from_str(text).unwrap()
}

fn register(text: &str) -> Register {
    match Operand::from_str(text).unwrap() {
        Operand::Register(r) => r,
        _ => panic!("not a register: {text}"),
    }
}

fn identifier(name: &str) -> Identifier {
    Identifier { name: name.to_string() }
}

fn lit(l: LiteralType) -> PlaintextType {
    PlaintextType::Literal(l)
}

fn reg(p: PlaintextType) -> RegisterType {
    RegisterType::Plaintext(p)
}

#[test]
fn cast_test_parse() {
    let (string, cast) = CastOperation::parse(0, "cast r0.owner r0.token_amount into r1 as token.record").unwrap();
    assert!(string.is_empty(), "Parser did not consume all of the string: '{string}'");
    assert_eq!(cast.operands().len(), 2, "The number of operands is incorrect");
    assert_eq!(cast.operands()[0], operand("r0.owner"), "The first operand is incorrect");
    assert_eq!(cast.operands()[1], operand("r0.token_amount"), "The second operand is incorrect");
    assert_eq!(*cast.destination(), register("r1"), "The destination register is incorrect");
    assert_eq!(cast.cast_type(), &CastType::Record(identifier("token")), "The value type is incorrect");
}

fn numbered_operands(n: usize) -> (String, Vec<Operand>) {
    let mut string = "cast ".to_string();
    let mut operands = Vec::with_capacity(n);
    for i in 0..n {
        string.push_str(&format!("r{i} "));
        operands.push(operand(&format!("r{i}")));
    }
    (string, operands)
}

#[test]
fn test_parse_cast_into_plaintext_max_operands() {
    let max = data_limits().max_struct_entries;
    let (mut string, operands) = numbered_operands(max);
    string.push_str(&format!("into r{max} as foo"));
    let (string, cast) = CastOperation::parse(0, &string).unwrap();
    assert!(string.is_empty(), "Parser did not consume all of the string: '{string}'");
    assert_eq!(cast.operands().len(), max, "The number of operands is incorrect");
    assert_eq!(cast.operands(), &operands, "The operands are incorrect");
    assert_eq!(*cast.destination(), register(&format!("r{max}")), "The destination register is incorrect");
    assert_eq!(cast.cast_type(), &CastType::Plaintext(PlaintextType::Struct(identifier("foo"))), "The value type is incorrect");
}

#[test]
fn test_parse_cast_into_record_max_operands() {
    let max = data_limits().max_record_entries;
    let (mut string, operands) = numbered_operands(max);
    string.push_str(&format!("into r{max} as token.record"));
    let (string, cast) = CastOperation::parse(0, &string).unwrap();
    assert!(string.is_empty(), "Parser did not consume all of the string: '{string}'");
    assert_eq!(cast.operands().len(), max, "The number of operands is incorrect");
    assert_eq!(cast.operands(), &operands, "The operands are incorrect");
    assert_eq!(*cast.destination(), register(&format!("r{max}")), "The destination register is incorrect");
    assert_eq!(cast.cast_type(), &CastType::Record(identifier("token")), "The value type is incorrect");
}

#[test]
fn test_parse_cast_into_record_too_many_operands() {
    let max = data_limits().max_record_entries;
    let (mut string, _) = numbered_operands(max + 1);
    string.push_str(&format!("into r{} as token.record", max + 1));
    assert!(CastOperation::parse(0, &string).is_none(), "Parser did not error");
}

#[test]
fn test_parse_cast_into_plaintext_too_many_operands() {
    let max = data_limits().max_struct_entries;
    let (mut string, _) = numbered_operands(max + 1);
    string.push_str(&format!("into r{} as foo", max + 1));
    assert!(CastOperation::parse(0, &string).is_none(), "Parser did not error");
}

#[test]
fn test_parse_cast_into_dynamic_record() {
    let correct_cases = ["cast r0 into r1 as dynamic.record", "cast r1 into r5 as dynamic.record"];
    let incorrect_cases = [
        // Too few operands
        "cast into r1 as dynamic.record",
        // Too many operands (two)
        "cast r0 r1 into r2 as dynamic.record",
        // Too many operands
        "cast r0 r1 r2 into r3 as dynamic.record",
        // Too few destinations (with tag)
        "cast r0 into as dynamic.record",
        // Too few destinations (without tag)
        "cast r0 as dynamic.record",
        // Incorrect operand structure
        "cast r0.owner into r1 as dynamic.record",
        // Incorrect destination structure
        "cast r0 into r1.owner as dynamic.record",
    ];
    for case in correct_cases {
        assert!(CastOperation::parse(0, case).is_some(), "Parser failed for: {case}");
    }
    for case in incorrect_cases {
        assert!(CastOperation::parse(0, case).is_none(), "Parser did not fail for: {case}");
    }
}

#[test]
fn test_cast_type_contains_identifier_type() {
    // Identifier literal type should be detected.
    let cast_type = CastType::Plaintext(lit(LiteralType::Identifier));
    assert!(cast_type.contains_identifier_type().unwrap());

    // Non-identifier literal types should not be detected.
    let cast_type = CastType::Plaintext(lit(LiteralType::Field));
    assert!(!cast_type.contains_identifier_type().unwrap());
    let cast_type = CastType::Plaintext(lit(LiteralType::U64));
    assert!(!cast_type.contains_identifier_type().unwrap());

    // Non-plaintext cast types should not be detected.
    let cast_type = CastType::GroupXCoordinate;
    assert!(!cast_type.contains_identifier_type().unwrap());
    let cast_type = CastType::GroupYCoordinate;
    assert!(!cast_type.contains_identifier_type().unwrap());
    let cast_type = CastType::Record(identifier("token"));
    assert!(!cast_type.contains_identifier_type().unwrap());
}

#[test]
fn test_cast_instruction_contains_identifier_type() {
    // A cast to identifier type should be detected.
    let (_, cast) = CastOperation::parse(0, "cast r0 into r1 as identifier").unwrap();
    assert!(cast.cast_type().contains_identifier_type().unwrap());

    // A cast to field type should not be detected.
    let (_, cast) = CastOperation::parse(0, "cast r0 into r1 as field").unwrap();
    assert!(!cast.cast_type().contains_identifier_type().unwrap());

    // A cast.lossy to identifier type should be detected.
    let (_, cast) = CastOperation::parse(1, "cast.lossy r0 into r1 as identifier").unwrap();
    assert!(cast.cast_type().contains_identifier_type().unwrap());
}

#[test]
fn cast_types_print_back_what_they_read() {
    for text in [
        "group.x",
        "group.y",
        "dynamic.record",
        "token.record",
        "credits.aleo/token.record",
        "u64",
        "[[u8; 4u32]; 2u32]",
        "credits.aleo/token",
    ] {
        assert_eq!(CastType::from_str(text).unwrap().to_string(), text);
    }
    assert_eq!(
        CastType::from_str("credits.aleo/token.record").unwrap(),
        CastType::ExternalRecord(
            ProgramID { name: "credits".to_string(), network: "aleo".to_string() },
            identifier("token")
        )
    );
    let text = "cast.lossy r0 into r1 as u8";
    assert_eq!(CastOperation::from_str(1, text).unwrap().to_string(), text);
    let text = "cast r0 1u8 r2 into r3 as [u8; 3u32]";
    assert_eq!(CastOperation::from_str(0, text).unwrap().to_string(), text);
}

#[test]
fn cast_array_size_and_identifier_depth() {
    let deep = (0..40).fold(lit(LiteralType::Identifier), |t, _| PlaintextType::Array(Box::new(t), 1));
    assert_eq!(CastType::Plaintext(deep).contains_identifier_type(), None);
    let arrays = CastType::from_str("[[u8; 4u32]; 2u32]").unwrap();
    assert!(arrays.exceeds_max_array_size(3));
    assert!(!arrays.exceeds_max_array_size(4));
    assert!(!CastType::Record(identifier("token")).exceeds_max_array_size(0));
}

#[test]
fn cast_output_types_follow_the_cast_type() {
    let none: Option<Vec<PlaintextType>> = None;
    // A group coordinate needs a group element.
    let (_, cast) = CastOperation::parse(0, "cast r0 into r1 as group.x").unwrap();
    let group = vec![reg(lit(LiteralType::Group))];
    assert_eq!(cast.output_types(&group, &none, &vec![None]).unwrap(), vec![reg(lit(LiteralType::Field))]);
    let field = vec![reg(lit(LiteralType::Field))];
    assert!(matches!(cast.output_types(&field, &none, &vec![None]), Err(TypeError::InputType(0))));

    // A lossy cast only produces literals.
    let (_, lossy) = CastOperation::parse(1, "cast.lossy r0 into r1 as token").unwrap();
    assert!(matches!(lossy.output_types(&field, &none, &vec![None]), Err(TypeError::LossyCastTarget)));

    // A struct takes its members, in order.
    let (_, cast) = CastOperation::parse(0, "cast r0 r1 into r2 as point").unwrap();
    let inputs = vec![reg(lit(LiteralType::U8)), reg(lit(LiteralType::U8))];
    let members = Some(vec![lit(LiteralType::U8), lit(LiteralType::U8)]);
    assert!(matches!(cast.output_types(&inputs, &none, &vec![Some(true), Some(true)]), Err(TypeError::UndefinedType)));
    assert_eq!(
        cast.output_types(&inputs, &members, &vec![Some(true), Some(true)]).unwrap(),
        vec![reg(PlaintextType::Struct(identifier("point")))]
    );
    assert!(matches!(cast.output_types(&inputs, &members, &vec![Some(true), Some(false)]), Err(TypeError::InputType(1))));
    assert!(matches!(cast.output_types(&inputs, &members, &vec![None, Some(false)]), Err(TypeError::UnresolvedType(0))));
    let three = Some(vec![lit(LiteralType::U8), lit(LiteralType::U8), lit(LiteralType::U8)]);
    assert!(matches!(cast.output_types(&inputs, &three, &vec![Some(true), Some(true)]), Err(TypeError::InputCount(3))));
    assert!(matches!(cast.output_types(&field, &members, &vec![Some(true)]), Err(TypeError::InputCount(2))));

    // A record takes an owner address and its entries.
    let (_, cast) = CastOperation::parse(0, "cast r0 r1 into r2 as token.record").unwrap();
    let inputs = vec![reg(lit(LiteralType::Address)), reg(lit(LiteralType::U64))];
    let entries = Some(vec![lit(LiteralType::U64)]);
    assert_eq!(cast.output_types(&inputs, &entries, &vec![None, None]).unwrap(), vec![RegisterType::Record(identifier("token"))]);
    let wrong = Some(vec![lit(LiteralType::U32)]);
    assert!(matches!(cast.output_types(&inputs, &wrong, &vec![None, None]), Err(TypeError::InputType(1))));

    // A dynamic record takes a static record.
    let (_, cast) = CastOperation::parse(0, "cast r0 into r1 as dynamic.record").unwrap();
    let record = vec![RegisterType::Record(identifier("token"))];
    assert_eq!(cast.output_types(&record, &none, &vec![None]).unwrap(), vec![RegisterType::DynamicRecord]);
    assert!(matches!(cast.output_types(&field, &none, &vec![None]), Err(TypeError::InputType(0))));

    // No cast produces a record of another program.
    let (_, cast) = CastOperation::parse(0, "cast r0 r1 into r2 as credits.aleo/token.record").unwrap();
    assert!(matches!(cast.output_types(&inputs, &entries, &vec![None, None]), Err(TypeError::ExternalRecordCast)));
}
