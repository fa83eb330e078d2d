use synthesizer_program::operand::Identifier;
use synthesizer_program::program::{ComponentKind, ProgramError};
use synthesizer_program::scope::ScopeError;
use synthesizer_program::scope::ViewCore;
use synthesizer_program::program::ProgramCore as Program;

fn identifier(name: &str) -> Identifier {
    Identifier { name: name.to_string() }
}

#[test]
fn test_program_parse() {
    let (string, program) = Program::parse(
        r"
program to_parse.aleo;

struct message:
    first as field;
    second as field;

function compute:
    input r0 as message.private;
    add r0.first r0.second into r1;
    output r1 as field.private;",
    )
    .unwrap();
    assert!(string.is_empty(), "Parser did not consume all of the string: '{string}'");

    // The program contains the struct and the function.
    assert!(program.contains_struct(&identifier("message")));
    assert!(program.contains_function(&identifier("compute")));
}

#[test]
fn test_program_parse_with_view_zero_inputs() {
    let program = Program::from_str(
        r"
program qy_zeroin.aleo;

function noop:
    input r0 as u64.private;
    output r0 as u64.private;

view fixed_value:
    add 0u64 1234u64 into r0;
    output r0 as u64.public;",
    )
    .unwrap();
    assert_eq!(program.views().len(), 1);
}

#[test]
fn test_program_parse_with_view() {
    let (string, program) = Program::parse(
        r"
program token_with_view.aleo;

mapping balances:
    key as address.public;
    value as u64.public;

function noop:
    input r0 as u64.private;
    output r0 as u64.private;

view total_balance:
    input r0 as address.public;
    get.or_use balances[r0] 0u64 into r1;
    output r1 as u64.public;",
    )
    .unwrap();
    assert!(string.is_empty(), "Parser did not consume all of the string: '{string}'");

    // The program exposes the view by name.
    let view_name = identifier("total_balance");
    assert!(program.contains_view(&view_name));
    assert_eq!(1, program.views().len());
    let view: &ViewCore = program.get_view(&view_name).unwrap();
    assert_eq!(1, view.inputs().len());
    assert_eq!(1, view.commands().len());
    assert_eq!(1, view.outputs().len());
}

#[test]
fn test_program_view_rejects_writes() {
    let result = Program::from_str(
        r"
program bad_view.aleo;

mapping balances:
    key as address.public;
    value as u64.public;

view mutate:
    input r0 as address.public;
    set 1u64 into balances[r0];
    output r0 as address.public;",
    );
    assert!(result.is_err(), "expected program parse to fail when view contains 'set'");
}

#[test]
fn test_program_view_rejects_call() {
    let result = Program::from_str(
        r"
program bad_view.aleo;

closure helper:
    input r0 as field;
    output r0 as field;

view uses_call:
    input r0 as field.public;
    call helper r0 into r1;
    output r1 as field.public;",
    );
    assert!(result.is_err(), "expected program parse to fail when view contains 'call'");
}

#[test]
fn test_program_rejects_duplicate_view_names() {
    let result = Program::from_str(
        r"
program dup_view.aleo;

view foo:
    add 0u64 1u64 into r0;
    output r0 as u64.public;

view foo:
    add 0u64 2u64 into r0;
    output r0 as u64.public;",
    );
    assert!(result.is_err(), "expected program parse to fail with two views named 'foo'");
}

#[test]
fn test_program_rejects_view_name_colliding_with_function() {
    let result = Program::from_str(
        r"
program qf_collision.aleo;

function foo:
    input r0 as u64.private;
    output r0 as u64.private;

view foo:
    add 0u64 1u64 into r0;
    output r0 as u64.public;",
    );
    assert!(result.is_err(), "expected program parse to fail when a view reuses a function name");
}

#[test]
fn test_program_rejects_view_name_colliding_with_closure() {
    let result = Program::from_str(
        r"
program qc_collision.aleo;

closure foo:
    input r0 as field;
    output r0 as field;

function noop:
    input r0 as u64.private;
    output r0 as u64.private;

view foo:
    add 0u64 1u64 into r0;
    output r0 as u64.public;",
    );
    assert!(result.is_err(), "expected program parse to fail when a view reuses a closure name");
}

#[test]
fn test_program_parse_function_zero_inputs() {
    let (string, program) = Program::parse(
        r"
program to_parse.aleo;

function compute:
    add 1u32 2u32 into r0;
    output r0 as u32.private;",
    )
    .unwrap();
    assert!(string.is_empty(), "Parser did not consume all of the string: '{string}'");

    // The program contains the function.
    assert!(program.contains_function(&identifier("compute")));
}

#[test]
fn test_program_display() {
    let expected = r"program to_parse.aleo;

struct message:
    first as field;
    second as field;

function compute:
    input r0 as message.private;
    add r0.first r0.second into r1;
    output r1 as field.private;
";
    // Parse a new program.
    let program = Program::from_str(expected).unwrap();
    // The printed program is the text it was read from.
    assert_eq!(expected, program.to_string());
}

#[test]
fn program_errors_name_the_rule() {
    let dup = Program::from_str(
        "program dup.aleo;\n\nview foo:\n    add 0u64 1u64 into r0;\n    output r0 as u64.public;\n\nview foo:\n    add 0u64 2u64 into r0;\n    output r0 as u64.public;",
    );
    assert_eq!(dup.err(), Some(ProgramError::NameInUse));

    let two_constructors = Program::from_str(
        "program two.aleo;\n\nconstructor:\n    assert.eq true true;\n\nconstructor:\n    assert.eq true true;\n\nfunction f:\n    add 1u8 1u8 into r0;",
    );
    assert_eq!(two_constructors.err(), Some(ProgramError::TooManyComponents(ComponentKind::Constructor)));

    let self_import = Program::from_str("import me.aleo;\nprogram me.aleo;\n\nfunction f:\n    add 1u8 1u8 into r0;");
    assert_eq!(self_import.err(), Some(ProgramError::ImportsItself));

    let dup_import =
        Program::from_str("import a.aleo;\nimport a.aleo;\nprogram me.aleo;\n\nfunction f:\n    add 1u8 1u8 into r0;");
    assert_eq!(dup_import.err(), Some(ProgramError::DuplicateImport));

    assert_eq!(Program::from_str("program empty.aleo;").err(), Some(ProgramError::NotAProgram));
    assert_eq!(Program::from_str("not a program").err(), Some(ProgramError::NotAProgram));
}

#[test]
fn program_with_trailing_text_is_refused() {
    let text = "program t.aleo;\n\nfunction f:\n    add 1u8 1u8 into r0;\n\nthis is not a component";
    assert_eq!(Program::from_str(text).err(), Some(ProgramError::Trailing("this is not a component".to_string())));
    // Reading from the start of the text gives the program and the rest.
    let (rest, program) = Program::parse(text).unwrap();
    assert_eq!(rest, "this is not a component");
    assert!(program.contains_function(&identifier("f")));
}

#[test]
fn program_prints_imports_mappings_and_views() {
    let text = "import credits.aleo;\n\nprogram shown.aleo;\n\nmapping balances:\n    key as address.public;\n    value as u64.public;\n\nview total:\n    input r0 as address.public;\n    get.or_use balances[r0] 0u64 into r1;\n    output r1 as u64.public;\n";
    let program = Program::from_str(text).unwrap();
    assert_eq!(program.to_string(), text);
    assert!(program.contains_mapping(&identifier("balances")));
    assert!(!program.contains_mapping(&identifier("total")));
}

#[test]
fn program_reads_a_function_with_its_finalize_block() {
    let text = "program fin.aleo;\n\nmapping m:\n    key as field.public;\n    value as field.public;\n\nfunction go:\n    input r0 as field.public;\n    async go r0 into r1;\n    output r1 as fin.aleo/go.future;\n\nfinalize go:\n    input r0 as field.public;\n    set r0 into m[r0];\n";
    let program = Program::from_str(text).unwrap();
    assert_eq!(program.to_string(), text);
}

#[test]
fn program_checksum_is_the_digest_of_its_text() {
    let program = Program::from_str("program c.aleo;\n\nfunction f:\n    add 1u8 1u8 into r0;\n").unwrap();
    let again = Program::from_str(&program.to_string()).unwrap();
    assert_eq!(program.to_checksum(), again.to_checksum());
    let other = Program::from_str("program c.aleo;\n\nfunction f:\n    add 1u8 2u8 into r0;\n").unwrap();
    assert_ne!(program.to_checksum(), other.to_checksum());
}

#[test]
fn view_errors_reach_the_program_as_unread_text() {
    // The view's own rules refuse it, so it is not read: the program ends before it.
    let text = "program v.aleo;\n\nfunction f:\n    add 1u8 1u8 into r0;\n\nview w:\n    await r0;";
    let (rest, program) = Program::parse(text).unwrap();
    assert!(rest.starts_with("view w:"));
    assert!(!program.contains_view(&identifier("w")));
    let _ = ScopeError::AwaitForbidden;
}

fn program_with(imports: usize, body: &str) -> Result<Program, ProgramError> {
    let mut text = String::new();
    for i in 0..imports {
        text.push_str(&format!("import foo{i}.aleo;\n"));
    }
    text.push_str("\nprogram to_parse.aleo;\n\n");
    text.push_str(body);
    Program::from_str(&text)
}

fn structs(n: usize) -> String {
    (0..n).map(|i| format!("struct m{i}:\n    a0 as u128;\n")).collect()
}

#[test]
fn program_component_limits() {
    let limits = synthesizer_program::console::network_limits();
    // The most imports.
    assert!(program_with(limits.max_imports, &structs(1)).is_ok());
    assert_eq!(program_with(limits.max_imports + 1, &structs(1)).err(), Some(ProgramError::TooManyImports));
    // The most structs.
    assert!(program_with(0, &structs(limits.max_structs)).is_ok());
    assert_eq!(
        program_with(0, &structs(limits.max_structs + 1)).err(),
        Some(ProgramError::TooManyComponents(ComponentKind::Struct))
    );
    // The most records.
    let records = |n: usize| -> String {
        (0..n).map(|i| format!("record r{i}:\n    owner as address.private;\n    a0 as u128.private;\n")).collect()
    };
    assert!(program_with(0, &records(limits.max_records)).is_ok());
    assert_eq!(
        program_with(0, &records(limits.max_records + 1)).err(),
        Some(ProgramError::TooManyComponents(ComponentKind::Record))
    );
    // The most mappings.
    let mappings = |n: usize| -> String {
        (0..n).map(|i| format!("mapping a{i}:\n    key as field.public;\n    value as field.public;\n")).collect()
    };
    assert!(program_with(0, &mappings(limits.max_mappings)).is_ok());
    assert_eq!(
        program_with(0, &mappings(limits.max_mappings + 1)).err(),
        Some(ProgramError::TooManyComponents(ComponentKind::Mapping))
    );
    // The most closures.
    let closures = |n: usize| -> String {
        (0..n).map(|i| format!("closure c{i}:\n    input r0 as u128;\n    output r0 as u128;\n")).collect()
    };
    assert!(program_with(0, &closures(limits.max_closures)).is_ok());
    assert_eq!(
        program_with(0, &closures(limits.max_closures + 1)).err(),
        Some(ProgramError::TooManyComponents(ComponentKind::Closure))
    );
    // The most functions.
    let functions =
        |n: usize| -> String { (0..n).map(|i| format!("function f{i}:\n    add 1u128 1u128 into r0;\n")).collect() };
    assert!(program_with(0, &functions(limits.max_functions)).is_ok());
    assert_eq!(
        program_with(0, &functions(limits.max_functions + 1)).err(),
        Some(ProgramError::TooManyComponents(ComponentKind::Function))
    );
}

#[test]
fn program_refuses_text_longer_than_the_most() {
    let limits = synthesizer_program::console::network_limits();
    let long = format!("program big.aleo;\n\nfunction f:\n    add 1u8 1u8 into r0;\n{}", " ".repeat(limits.max_program_size));
    assert_eq!(Program::from_str(&long).err(), Some(ProgramError::TooLong));
}
