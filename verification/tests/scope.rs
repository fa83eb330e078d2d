use synthesizer_program::command::Command;
use synthesizer_program::console::network_limits;
use synthesizer_program::operand::Identifier;
use synthesizer_program::scope::{ConstructorCore, FinalizeCore, Input, Output, ScopeError, ViewCore};

fn identifier(name: &str) -> Identifier {
    Identifier { name: name.to_string() }
}

fn command(text: &str) -> Command {
    Command::from_str(text).unwrap()
}

// Turns a number into a distinct name made of capital letters.
fn to_unique_string(mut n: usize) -> String {
    let mut s = String::new();
    while n > 0 {
        s.push((b'A' + (n % 26) as u8) as char);
        n /= 26;
    }
    s.chars().rev().collect::<String>()
}

#[test]
fn test_add_input() {
    let mut finalize = FinalizeCore::new(identifier("finalize_core_test"));

    // An input can be added.
    let input = Input::from_str("input r0 as field.public;").unwrap();
    assert!(finalize.add_input(input.clone()).is_ok());

    // A duplicate input is refused.
    assert!(finalize.add_input(input).is_err());

    // More inputs than the most are refused.
    let max_inputs = network_limits().max_inputs;
    for i in 1..max_inputs * 2 {
        let input = Input::from_str(&format!("input r{i} as field.public;")).unwrap();
        match finalize.inputs().len() < max_inputs {
            true => assert!(finalize.add_input(input).is_ok()),
            false => assert!(finalize.add_input(input).is_err()),
        }
    }
}

#[test]
fn mod_test_add_command() {
    let mut finalize = FinalizeCore::new(identifier("finalize_core_test"));

    // A command can be added.
    assert!(finalize.add_command(command("add r0 r1 into r2;")).is_ok());

    // More commands than the most are refused.
    let max_commands = network_limits().max_commands;
    for i in 3..max_commands * 2 {
        let command = command(&format!("add r0 r1 into r{i};"));
        match finalize.commands().len() < max_commands {
            true => assert!(finalize.add_command(command).is_ok()),
            false => assert!(finalize.add_command(command).is_err()),
        }
    }

    // More writes than the most are refused.
    let mut finalize = FinalizeCore::new(identifier("finalize_core_test"));
    let max_writes = network_limits().max_writes;
    for _ in 0..max_writes * 2 {
        let command = command("remove object[r0];");
        match finalize.commands().len() < max_writes as usize {
            true => assert!(finalize.add_command(command).is_ok()),
            false => assert!(finalize.add_command(command).is_err()),
        }
    }
}

#[test]
fn mod_test_add_command_duplicate_positions() {
    let mut finalize = FinalizeCore::new(identifier("finalize_core_test"));

    // A command can be added.
    let position = command("position start;");
    assert!(finalize.add_command(position.clone()).is_ok());

    // A duplicate position is refused.
    assert!(finalize.add_command(position).is_err());

    // More positions than the most are refused.
    for i in 1..u8::MAX as usize * 2 {
        let position = to_unique_string(i);
        let command = command(&format!("position {position};"));
        match finalize.commands().len() < u8::MAX as usize {
            true => assert!(finalize.add_command(command).is_ok()),
            false => assert!(finalize.add_command(command).is_err()),
        }
    }
}

#[test]
fn test_reject_cast_to_dynamic_record_in_finalize() {
    let mut finalize = FinalizeCore::new(identifier("finalize_core_test"));
    let err = finalize.add_command(command("cast r0 into r1 as dynamic.record;")).unwrap_err();
    assert!(err.to_string().contains("operate on records"));
}

#[test]
fn test_reject_get_record_dynamic_in_finalize() {
    let mut finalize = FinalizeCore::new(identifier("finalize_core_test"));
    let err = finalize.add_command(command("get.record.dynamic r0.x into r1 as bool;")).unwrap_err();
    assert!(err.to_string().contains("operate on records"));
}

#[test]
fn test_add_command() {
    let mut constructor = ConstructorCore::new();

    // A command can be added.
    assert!(constructor.add_command(command("add r0 r1 into r2;")).is_ok());

    // More commands than the most are refused.
    let max_commands = network_limits().max_commands;
    for i in 3..max_commands * 2 {
        let command = command(&format!("add r0 r1 into r{i};"));
        match constructor.commands().len() < max_commands {
            true => assert!(constructor.add_command(command).is_ok()),
            false => assert!(constructor.add_command(command).is_err()),
        }
    }

    // More writes than the most are refused.
    let mut constructor = ConstructorCore::new();
    let max_writes = network_limits().max_writes;
    for _ in 0..max_writes * 2 {
        let command = command("remove object[r0];");
        match constructor.commands().len() < max_writes as usize {
            true => assert!(constructor.add_command(command).is_ok()),
            false => assert!(constructor.add_command(command).is_err()),
        }
    }
}

#[test]
fn test_add_command_duplicate_positions() {
    let mut constructor = ConstructorCore::new();

    // A command can be added.
    let position = command("position start;");
    assert!(constructor.add_command(position.clone()).is_ok());

    // A duplicate position is refused.
    assert!(constructor.add_command(position).is_err());

    // More positions than the most are refused.
    for i in 1..u8::MAX as usize * 2 {
        let position = to_unique_string(i);
        let command = command(&format!("position {position};"));
        match constructor.commands().len() < u8::MAX as usize {
            true => assert!(constructor.add_command(command).is_ok()),
            false => assert!(constructor.add_command(command).is_err()),
        }
    }
}

fn view() -> ViewCore {
    ViewCore::new(identifier("view_core_test"))
}

#[test]
fn mod_test_add_input() {
    let mut view = view();
    let input = Input::from_str("input r0 as field.public;").unwrap();
    assert!(view.add_input(input.clone()).is_ok());
    assert!(view.add_input(input).is_err());
}

#[test]
fn test_reject_set_command() {
    let err = view().add_command(command("set 1u64 into balances[0u64];")).unwrap_err();
    assert!(err.to_string().contains("'set' or 'remove'"));
}

#[test]
fn test_reject_remove_command() {
    let err = view().add_command(command("remove balances[0u64];")).unwrap_err();
    assert!(err.to_string().contains("'set' or 'remove'"));
}

#[test]
fn test_reject_rand_chacha() {
    let err = view().add_command(command("rand.chacha into r0 as u64;")).unwrap_err();
    assert!(err.to_string().contains("rand.chacha"));
}

#[test]
fn test_reject_await_command() {
    let err = view().add_command(command("await r0;")).unwrap_err();
    assert!(err.to_string().contains("'await'"));
}

#[test]
fn test_reject_call_instruction() {
    let err = view().add_command(command("call foo r0 into r1;")).unwrap_err();
    assert!(err.to_string().contains("'call'"));
}

#[test]
fn test_reject_cast_to_record() {
    let err = view().add_command(command("cast r0.owner r0.token_amount into r1 as token.record;")).unwrap_err();
    assert!(err.to_string().contains("operate on records"));
}

#[test]
fn test_reject_cast_to_dynamic_record() {
    let err = view().add_command(command("cast r0 into r1 as dynamic.record;")).unwrap_err();
    assert!(err.to_string().contains("operate on records"));
}

#[test]
fn test_reject_get_record_dynamic() {
    let err = view().add_command(command("get.record.dynamic r0.x into r1 as bool;")).unwrap_err();
    assert!(err.to_string().contains("operate on records"));
}

#[test]
fn test_reject_async_instruction() {
    let err = view().add_command(command("async foo r0 r1 into r3;")).unwrap_err();
    assert!(err.to_string().contains("'async'"));
}

#[test]
fn test_output_parse() {
    // Register operand.
    let output = Output::parse("output r0 as field.public;").unwrap().1;
    assert_eq!(output.operand.to_string(), "r0");
    assert_eq!(output.ty, "field.public");

    // Literal operand.
    let output = Output::parse("output 1u64 as u64.public;").unwrap().1;
    assert_eq!(output.operand.to_string(), "1u64");
    assert_eq!(output.ty, "u64.public");
}

#[test]
fn test_output_display() {
    let output = Output::from_str("output r0 as field.public;").unwrap();
    assert_eq!("output r0 as field.public;", output.to_string());

    let output = Output::from_str("output 1u64 as u64.public;").unwrap();
    assert_eq!("output 1u64 as u64.public;", output.to_string());
}

#[test]
fn test_output_parse_fails() {
    // Missing trailing semicolon.
    assert!(Output::from_str("output r0 as field.public").is_none());
    // Missing 'as' keyword.
    assert!(Output::from_str("output r0 field.public;").is_none());
    // Missing operand.
    assert!(Output::from_str("output as field.public;").is_none());
    // Missing 'output' keyword.
    assert!(Output::from_str("r0 as field.public;").is_none());
    // Missing finalize type.
    assert!(Output::from_str("output r0 as ;").is_none());
}

#[test]
fn view_refuses_inputs_after_commands_and_commands_after_outputs() {
    let mut view = view();
    assert!(view.add_command(command("add 1u8 1u8 into r0;")).is_ok());
    let input = Input::from_str("input r1 as u8.public;").unwrap();
    assert_eq!(view.add_input(input), Err(ScopeError::InputAfterCommand));
    assert!(view.add_output(Output::from_str("output r0 as u8.public;").unwrap()).is_ok());
    // The same output again is not added twice.
    assert!(view.add_output(Output::from_str("output r0 as u8.public;").unwrap()).is_ok());
    assert_eq!(view.outputs().len(), 1);
    assert_eq!(view.add_command(command("add 1u8 1u8 into r1;")), Err(ScopeError::CommandAfterOutput));
    assert_eq!(
        view.to_string(),
        "view view_core_test:\n    add 1u8 1u8 into r0;\n    output r0 as u8.public;"
    );
}

#[test]
fn view_refuses_futures_and_accesses() {
    let mut view = view();
    let future = Input::from_str("input r0 as credits.aleo/mint.future;").unwrap();
    assert_eq!(view.add_input(future), Err(ScopeError::InputNotPlaintext));
    let mut finalize = FinalizeCore::new(identifier("f"));
    let access = Input::from_str("input r0.owner as field.public;").unwrap();
    assert_eq!(finalize.add_input(access), Err(ScopeError::InputNotLocator));
    assert_eq!(
        finalize.add_command(command("add r0 r1 into r2.owner;")),
        Err(ScopeError::DestinationNotLocator)
    );
}

#[test]
fn branches_may_only_go_forward() {
    let mut finalize = FinalizeCore::new(identifier("f"));
    assert!(finalize.add_command(command("branch.eq r0 r1 to end;")).is_ok());
    assert!(finalize.add_command(command("position end;")).is_ok());
    assert_eq!(
        finalize.add_command(command("branch.neq r0 r1 to end;")),
        Err(ScopeError::BranchToEarlierPosition)
    );
    let positions = finalize.positions();
    assert_eq!(positions.len(), 1);
    assert_eq!(positions[0].0.name, "end");
    assert_eq!(positions[0].1, 1);
}

#[test]
fn finalize_counts_writes_and_refuses_dynamic_calls() {
    let mut finalize = FinalizeCore::new(identifier("f"));
    assert!(finalize.add_command(command("set r0 into m[r1];")).is_ok());
    assert!(finalize.add_command(command("remove m[r1];")).is_ok());
    assert_eq!(finalize.num_writes(), 2);
    assert_eq!(finalize.add_command(command("call.dynamic r0 r1 r2 into r3;")), Err(ScopeError::DynamicCallForbidden));
    assert_eq!(finalize.add_command(command("async f r0 into r1;")), Err(ScopeError::AsyncForbidden));
}

#[test]
fn constructor_refuses_calls_and_awaits() {
    let mut constructor = ConstructorCore::new();
    assert_eq!(constructor.add_command(command("call f r0 into r1;")), Err(ScopeError::CallForbidden));
    assert_eq!(constructor.add_command(command("await r0;")), Err(ScopeError::AwaitForbidden));
    assert!(constructor.commands().is_empty());
}
