use synthesizer_program::command::{Base, Command, Item};
use synthesizer_program::get_dynamic::GetDynamic;
use synthesizer_program::global_state::FinalizeGlobalState;
use synthesizer_program::types::PlaintextType;
use synthesizer_program::operand::{Identifier, Operand};

#[test]
fn test_display_parse_roundtrip() {
    let input = "get.dynamic r0 r1 r2[r3] into r4 as u8;";
    let (string, parsed) = GetDynamic::parse(input).unwrap();
    assert!(string.is_empty());
    let displayed = parsed.to_string();
    let (remainder, reparsed) = GetDynamic::parse(&displayed).unwrap();
    assert!(remainder.is_empty());
    assert_eq!(parsed, reparsed);
}

#[test]
fn command_display_parse_roundtrip() {
    let input = "get.dynamic r0 r1 r2[r3] into r4 as u8;";
    let parsed = Command::from_str(input).unwrap();
    let displayed = parsed.to_string();
    let reparsed = Command::from_str(&displayed).unwrap();
    assert_eq!(parsed, reparsed);
    assert_eq!(displayed, input);
}

fn operand(text: &str) -> Operand {
    Operand::from_str(text).unwrap()
}

#[test]
fn get_dynamic_test_parse() {
    let (string, get) = GetDynamic::parse("get.dynamic r0 r1 r2[r3] into r4 as Baz;").unwrap();
    assert!(string.is_empty(), "Parser did not consume all of the string: '{string}'");
    assert_eq!(get.operands().len(), 4, "The number of operands is incorrect");
    assert_eq!(get.program_name_operand(), &operand("r0"), "The first operand is incorrect");
    assert_eq!(get.program_network_operand(), &operand("r1"), "The second operand is incorrect");
    assert_eq!(get.mapping_name_operand(), &operand("r2"), "The third operand is incorrect");
    assert_eq!(get.key_operand(), &operand("r3"), "The fourth operand is incorrect");
    assert_eq!(get.destination().text, "r4", "The destination register is incorrect");
    assert_eq!(
        get.destination_type(),
        &PlaintextType::Struct(Identifier { name: "Baz".to_string() }),
        "The destination type is incorrect"
    );
}

#[test]
fn get_dynamic_reads_spacing_and_leaves_the_rest() {
    let (rest, get) = GetDynamic::parse("  get.dynamic 'credits' 'aleo' 'account'[ r0 ] into r1 as u64 ;\nadd r0 r1 into r2;").unwrap();
    assert_eq!(rest, "\nadd r0 r1 into r2;");
    assert_eq!(get.to_string(), "get.dynamic 'credits' 'aleo' 'account'[r0] into r1 as u64;");
    assert!(GetDynamic::from_str("get.dynamic r0 r1 r2 into r4 as u8;").is_none());
    assert!(GetDynamic::from_str("get.dynamic r0 r1 r2[r3] into r4 as u8").is_none());
}

#[test]
fn commands_print_back_as_they_were_read() {
    for text in [
        "add r0 r1 into r2;",
        "contains object[r0] into r1;",
        "contains.dynamic r0 r1 r2[r3] into r4;",
        "get object[r0] into r1;",
        "get.dynamic r0 r1 r2[r3] into r4 as u8;",
        "get.or_use object[r0] r1 into r2;",
        "get.or_use.dynamic r0 r1 r2[r3] r4 into r5 as Foo;",
        "rand.chacha into r1 as field;",
        "rand.chacha r0 r1 into r2 as group;",
        "remove object[r0];",
        "set r0 into object[r1];",
        "branch.eq r0 r1 to exit;",
        "branch.neq r2 r3 to start;",
        "position exit;",
        "await r1;",
        "cast r0 r0 into r1 as [u128; 2u32];",
    ] {
        let command = Command::from_str(text).unwrap();
        assert_eq!(command.to_string(), text);
    }
}

#[test]
fn commands_read_their_parts() {
    let command = Command::from_str("get.dynamic r0 r1 r2[r3] into r4 as Baz;").unwrap();
    assert_eq!(command.opcode, "get.dynamic");
    assert_eq!(command.args.len(), 3);
    assert_eq!(command.into.len(), 1);
    assert_eq!(command.cast.as_deref(), Some("Baz"));
    assert_eq!(command.args[2].key, Some(Operand::from_str("r3").unwrap()));
    let branch = Command::from_str("branch.eq r0 r1 to exit;").unwrap();
    assert_eq!(branch.branch_to(), Some(&Identifier { name: "exit".to_string() }));
    let position = Command::from_str("position exit;").unwrap();
    assert_eq!(position.position(), Some(&Identifier { name: "exit".to_string() }));
    assert_eq!(
        position.args,
        vec![Item { base: Base::Name(Identifier { name: "exit".to_string() }), key: None }]
    );
    assert!(Command::from_str("set r0 into object[r1];").unwrap().is_write());
    assert!(Command::from_str("cast r0 into r1 as token.record;").unwrap().is_instruction_for_record());
    assert!(!Command::from_str("cast r0 into r1 as field;").unwrap().is_instruction_for_record());
    assert!(!Command::from_str("get object[r0] into r1;").unwrap().is_instruction());
    assert!(Command::from_str("add r0 r1 into r2;").unwrap().is_instruction());
    // Statements that are not commands.
    assert!(Command::from_str("add r0 r1 into r2").is_none());
    assert!(Command::from_str("add r0 into;").is_none());
    assert!(Command::from_str("Add r0 r1 into r2;").is_none());
}

#[test]
fn global_state_keeps_its_parts() {
    let state = FinalizeGlobalState::from(7, 9, Some(-3), [5u8; 32], None, Some(11));
    assert_eq!(state.block_round(), 7);
    assert_eq!(state.block_height(), 9);
    assert_eq!(state.block_timestamp(), Some(-3));
    assert_eq!(state.random_seed(), &[5u8; 32]);
    assert_eq!(state.block_spend_limit(), None);
    assert_eq!(state.block_synthesis_limit(), Some(11));
}

fn texts_of_operands(c: &Command) -> Vec<String> {
    c.operands().iter().map(|op| op.to_string()).collect()
}

fn texts_of_destinations(c: &Command) -> Vec<String> {
    c.destinations().iter().map(|r| r.text.clone()).collect()
}

#[test]
fn command_operands_stand_in_statement_order() {
    let get = Command::from_str("get.dynamic r0 r1 r2[r3] into r4 as u8;").unwrap();
    assert_eq!(texts_of_operands(&get), vec!["r0", "r1", "r2", "r3"]);
    let set = Command::from_str("set r0 into balances[r1];").unwrap();
    assert_eq!(texts_of_operands(&set), vec!["r0", "r1"]);
    let get_or_use = Command::from_str("get.or_use balances[r0] 0u64 into r1;").unwrap();
    assert_eq!(texts_of_operands(&get_or_use), vec!["r0", "0u64"]);
    let branch = Command::from_str("branch.eq r0 r1 to end;").unwrap();
    assert_eq!(texts_of_operands(&branch), vec!["r0", "r1"]);
    let position = Command::from_str("position end;").unwrap();
    assert!(position.operands().is_empty());
    let call = Command::from_str("call foo r0 r1 into r2 r3;").unwrap();
    assert_eq!(texts_of_operands(&call), vec!["r0", "r1"]);
}

#[test]
fn command_destinations_are_the_registers_after_into() {
    let call = Command::from_str("call foo r0 r1 into r2 r3;").unwrap();
    assert_eq!(texts_of_destinations(&call), vec!["r2", "r3"]);
    let contains = Command::from_str("contains balances[r0] into r1;").unwrap();
    assert_eq!(texts_of_destinations(&contains), vec!["r1"]);
    let set = Command::from_str("set r0 into balances[r1];").unwrap();
    assert!(set.destinations().is_empty());
    let remove = Command::from_str("remove balances[r0];").unwrap();
    assert!(remove.destinations().is_empty());
    let await_ = Command::from_str("await r0;").unwrap();
    assert!(await_.destinations().is_empty());
    assert_eq!(texts_of_operands(&await_), vec!["r0"]);
}
