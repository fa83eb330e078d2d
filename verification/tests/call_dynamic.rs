use synthesizer_program::call_dynamic::{CallDynamic, CallDynamicError, ValueTypeText};
use synthesizer_program::console::{network_limits, ValueKind};
use synthesizer_program::operand::{Operand, Register};

const TEST_CASES: &[&str] = &[
    "call.dynamic r0 r1 r2",
    "call.dynamic r0 r1 r2 with r3 (as u8.public)",
    "call.dynamic r0 r1 r2 with r3.owner (as address.private)",
    "call.dynamic r0 r1 r2 with r3 r4 (as u8.public u64.private)",
    "call.dynamic r0 r1 r2 into r3 r4 (as foo.public bar.private)",
    "call.dynamic r0 r1 r2 into r3 r4 r5 (as u64.public address.private dynamic.future)",
    "call.dynamic r0 r1 r2 with r3 (as boolean.private) into r4 (as u8.private)",
    "call.dynamic r0 r1 r2 with r3 r4 (as u8.public foo.private) into r5 (as boolean.public)",
    "call.dynamic r0 r1 r2 with r3 r4 (as u8.public foo.private) into r5 r6 (as u8.private u64.public)",
    "call.dynamic r0 r1 r2 with r3 r4 r5 (as foo.private dynamic.record boolean.public) into r6 r7 (as u8.private u64.public)",
    "call.dynamic r0 r1 r2 with r3 r4 r5 (as foo.private bar.public boolean.public) into r6 r7 r8 (as u8.private dynamic.record dynamic.future)",
    "call.dynamic r0 r1 r2 with r3 r4 (as address.public u64.public) into r5 (as dynamic.future)",
    "call.dynamic 'credits' 'aleo' 'transfer_public' with aleo1wfyyj2uvwuqw0c0dqa5x70wrawnlkkvuepn4y08xyaqfqqwweqys39jayw 100u64 (as address.private u64.private) into r0 (as dynamic.future)",
];

fn operand(text: &str) -> Operand {
    Operand::from_str(text).unwrap()
}

fn register(text: &str) -> Register {
    match Operand::from_str(text).unwrap() {
        Operand::Register(r) => r,
        _ => panic!("not a register: {text}"),
    }
}

fn check_parser(string: &str, expected_operands: Vec<Operand>, expected_destinations: Vec<Register>, expected_types: Vec<&str>) {
    let (rest, call) = CallDynamic::parse(string).unwrap();
    assert!(rest.is_empty(), "Parser did not consume all of the string: '{rest}'");
    assert_eq!(call.operands(), &expected_operands, "The operands are incorrect");
    assert_eq!(call.destinations().len(), call.destination_types().len());
    assert_eq!(call.destinations(), &expected_destinations, "The destinations are incorrect");
    let types: Vec<&str> = call.destination_types().iter().map(|t| t.text.as_str()).collect();
    assert_eq!(types, expected_types, "The destination types are incorrect");
}

#[test]
fn dynamic_test_parse() {
    check_parser(
        "call.dynamic r4 r5 r6 with r0.owner r0.token_amount (as address.private u64.private) into r1 r2 r3 (as u64.public u8.private dynamic.future)",
        vec![operand("r4"), operand("r5"), operand("r6"), operand("r0.owner"), operand("r0.token_amount")],
        vec![register("r1"), register("r2"), register("r3")],
        vec!["u64.public", "u8.private", "dynamic.future"],
    );
    check_parser(
        "call.dynamic 'credits' 'aleo' 'transfer_public' with aleo1wfyyj2uvwuqw0c0dqa5x70wrawnlkkvuepn4y08xyaqfqqwweqys39jayw 100u64 (as address.private u64.private) into r0 (as dynamic.future)",
        vec![
            operand("'credits'"),
            operand("'aleo'"),
            operand("'transfer_public'"),
            operand("aleo1wfyyj2uvwuqw0c0dqa5x70wrawnlkkvuepn4y08xyaqfqqwweqys39jayw"),
            operand("100u64"),
        ],
        vec![register("r0")],
        vec!["dynamic.future"],
    );
    check_parser("call.dynamic r0 r1 r0", vec![operand("r0"), operand("r1"), operand("r0")], vec![], vec![]);
}

#[test]
fn test_display() {
    for expected in TEST_CASES {
        assert_eq!(CallDynamic::from_str(expected).unwrap().to_string(), *expected, "display of '{expected}'");
    }
}

#[test]
fn test_max_operands() {
    assert!(network_limits().max_inputs <= usize::from(u8::MAX));
}

#[test]
fn test_external_record_not_allowed_as_input() {
    assert!(CallDynamic::from_str("call.dynamic r0 r1 r2 with r3 (as foo.aleo/bar.record)").is_none());
}

#[test]
fn test_record_not_allowed_as_input() {
    assert!(CallDynamic::from_str("call.dynamic r0 r1 r2 with r3 (as bar.record)").is_none());
}

#[test]
fn test_future_not_allowed_as_input() {
    assert!(CallDynamic::from_str("call.dynamic r0 r1 r2 with r3 (as foo.aleo/bar.future)").is_none());
}

#[test]
fn test_dynamic_record_allowed_as_input() {
    assert!(CallDynamic::from_str("call.dynamic r0 r1 r2 with r3 (as dynamic.record)").is_some());
}

fn ty(kind: ValueKind, text: &str) -> ValueTypeText {
    ValueTypeText { kind, text: text.to_string() }
}

#[test]
fn call_dynamic_new_names_the_rule() {
    let three = || vec![operand("r0"), operand("r1"), operand("r2")];
    assert_eq!(
        CallDynamic::new(vec![operand("r0")], vec![], vec![], vec![]).err(),
        Some(CallDynamicError::TooFewOperands)
    );
    let mut many = three();
    for i in 0..17 {
        many.push(operand(&format!("r{}", i + 3)));
    }
    assert_eq!(CallDynamic::new(many, vec![], vec![], vec![]).err(), Some(CallDynamicError::TooManyOperands));
    let mut four = three();
    four.push(operand("r3"));
    assert_eq!(CallDynamic::new(four.clone(), vec![], vec![], vec![]).err(), Some(CallDynamicError::OperandTypeCount));
    assert_eq!(
        CallDynamic::new(four.clone(), vec![ty(ValueKind::Constant, "u8.constant")], vec![], vec![]).err(),
        Some(CallDynamicError::ForbiddenInputType(ValueKind::Constant))
    );
    assert_eq!(
        CallDynamic::new(four, vec![ty(ValueKind::DynamicFuture, "dynamic.future")], vec![], vec![]).err(),
        Some(CallDynamicError::ForbiddenInputType(ValueKind::DynamicFuture))
    );
    assert_eq!(
        CallDynamic::new(three(), vec![], vec![register("r3")], vec![]).err(),
        Some(CallDynamicError::DestinationTypeCount)
    );
    assert_eq!(
        CallDynamic::new(three(), vec![], vec![register("r3")], vec![ty(ValueKind::Record, "token.record")]).err(),
        Some(CallDynamicError::ForbiddenOutputType(ValueKind::Record))
    );
    let many_destinations: Vec<Register> = (3..20).map(|i| register(&format!("r{i}"))).collect();
    assert_eq!(
        CallDynamic::new(three(), vec![], many_destinations, vec![]).err(),
        Some(CallDynamicError::TooManyDestinations)
    );
    assert!(CallDynamic::new(three(), vec![], vec![register("r3")], vec![ty(ValueKind::DynamicFuture, "dynamic.future")]).is_ok());
}

#[test]
fn call_dynamic_parse_leaves_the_rest() {
    let (rest, call) = CallDynamic::parse("call.dynamic r0 r1 r2 into r3 (as u8.public);").unwrap();
    assert_eq!(rest, ";");
    assert_eq!(call.to_string(), "call.dynamic r0 r1 r2 into r3 (as u8.public)");
    assert!(CallDynamic::parse("call r0 r1 r2").is_none());
    assert!(CallDynamic::parse("call.dynamic r0 r1").is_none());
}

#[test]
fn test_bytes() {
    for case in TEST_CASES {
        let expected = CallDynamic::from_str(case).unwrap();
        let expected_bytes = expected.write_le().unwrap();
        let (_, read) = CallDynamic::read_le(&expected_bytes[..]).unwrap();
        assert_eq!(expected, read, "bytes of '{case}'");
    }
}

#[test]
fn call_dynamic_is_a_function_call() {
    assert!(CallDynamic::from_str("call.dynamic r0 r1 r2").unwrap().is_function_call());
}
