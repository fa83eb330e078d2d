//! The statements of a program's text: input and output statements, the headers of its
//! scopes, and the lists of statements that make up a scope's body.
//!
//! Every parser here reads from the start of a text and gives back the length of the text it
//! leaves over, as console's parsers do; a spec function says what each one reads.
use vstd::prelude::*;

use crate::command::{parse_command, spec_parse_command, Command, CommandView};
use crate::console::{
    console_finalize_type, console_identifier, console_register, console_register_type, console_sanitize,
    console_value_type, console_whitespace,
};
use crate::operand::{parse_operand, spec_parse_operand, tail, Identifier, Register, RegisterView};
use crate::scope::{Input, InputView, Output, OutputView};
use crate::text::{chars_of, has_prefix, starts_with, suffix};

verus! {

/// The kind of type that a statement names: a finalize type (`u64.public`), a value type
/// (`u64.private`), or a register type (`u64`).
#[derive(Clone, Copy, Debug, PartialEq, Eq)]
pub enum TypeKind {
    Finalize,
    Value,
    Register,
}

/// The type parser of the kind: the length of the rest, whether the type is plaintext (value
/// and register types count as plaintext here), and the printed type.
pub open spec fn spec_type(kind: TypeKind, t: Seq<char>) -> Option<(nat, bool, Seq<char>)> {
    match kind {
        TypeKind::Finalize => console_finalize_type(t),
        TypeKind::Value => match console_value_type(t) {
            Some((k, _, p)) => Some((k, true, p)),
            None => None,
        },
        TypeKind::Register => match console_register_type(t) {
            Some((k, p)) => Some((k, true, p)),
            None => None,
        },
    }
}

/// The view of the result of a type parser.
pub open spec fn typed_view(r: Option<(usize, bool, String)>) -> Option<(nat, bool, Seq<char>)> {
    match r {
        Some((k, b, p)) => Some((k as nat, b, p@)),
        None => None,
    }
}

/// The last `k` characters of `t`.
pub fn tail_of(t: &[char], k: usize) -> (r: &[char])
    requires
        k <= t@.len(),
    ensures
        r@ == tail(t@, k as nat),
{
    suffix(t, t.len() - k)
}

/// The text after a leading keyword.
pub open spec fn after(t: Seq<char>, w: Seq<char>) -> Seq<char> {
    tail(t, (t.len() - w.len()) as nat)
}

/// A tail of a tail is a tail.
pub proof fn lemma_tail_tail(s: Seq<char>, a: nat, b: nat)
    requires
        b <= a <= s.len(),
    ensures
        tail(tail(s, a), b) == tail(s, b),
{
    assert(tail(tail(s, a), b) =~= tail(s, b));
}

fn parse_type(kind: TypeKind, t: &[char]) -> (r: Option<(usize, bool, String)>)
    ensures
        typed_view(r) == spec_type(kind, t@),
        r matches Some((k, _, _)) ==> k <= t@.len(),
{
    match kind {
        TypeKind::Finalize => crate::console::finalize_type(t),
        TypeKind::Value => match crate::console::value_type(t) {
            Some((k, _, p)) => Some((k, true, p)),
            None => None,
        },
        TypeKind::Register => match crate::console::register_type(t) {
            Some((k, p)) => Some((k, true, p)),
            None => None,
        },
    }
}

/// The end of an input or output statement: ` as {type};`, with whitespace around the type.
pub open spec fn spec_typed_end(kind: TypeKind, t: Seq<char>) -> Option<(nat, bool, Seq<char>)> {
    match console_whitespace(t) {
        Some(k1) => {
            let t1 = tail(t, k1);
            if starts_with(t1, "as"@) {
                let t2 = after(t1, "as"@);
                match console_whitespace(t2) {
                    Some(k3) => {
                        let t3 = tail(t2, k3);
                        match spec_type(kind, t3) {
                            Some((k4, plain, ty)) => {
                                let t4 = tail(t3, k4);
                                match console_whitespace(t4) {
                                    Some(k5) => {
                                        let t5 = tail(t4, k5);
                                        if starts_with(t5, ";"@) {
                                            Some(((t5.len() - 1) as nat, plain, ty))
                                        } else {
                                            None
                                        }
                                    },
                                    None => None,
                                }
                            },
                            None => None,
                        }
                    },
                    None => None,
                }
            } else {
                None
            }
        },
        None => None,
    }
}

pub fn typed_end(kind: TypeKind, t: &[char]) -> (r: Option<(usize, bool, String)>)
    ensures
        typed_view(r) == spec_typed_end(kind, t@),
        r matches Some((k, _, _)) ==> k <= t@.len(),
{
    let k1 = match crate::console::whitespace(t) {
        Some(k) => k,
        None => return None,
    };
    let t1 = tail_of(t, k1);
    let w = chars_of("as");
    if !has_prefix(t1, &w) {
        return None;
    }
    let t2 = tail_of(t1, t1.len() - w.len());
    let k3 = match crate::console::whitespace(t2) {
        Some(k) => k,
        None => return None,
    };
    let t3 = tail_of(t2, k3);
    let (k4, plain, ty) = match parse_type(kind, t3) {
        Some(found) => found,
        None => return None,
    };
    let t4 = tail_of(t3, k4);
    let k5 = match crate::console::whitespace(t4) {
        Some(k) => k,
        None => return None,
    };
    let t5 = tail_of(t4, k5);
    if !has_prefix(t5, &chars_of(";")) {
        return None;
    }
    proof {
        reveal_strlit(";");
    }
    Some((t5.len() - 1, plain, ty))
}

/// An input statement: `input {register} as {type};`, after whitespace and comments.
pub open spec fn spec_input_stmt(kind: TypeKind, t: Seq<char>) -> Option<(nat, InputView)> {
    match console_sanitize(t) {
        Some(k0) => {
            let t0 = tail(t, k0);
            if starts_with(t0, "input"@) {
                let t1 = after(t0, "input"@);
                match console_whitespace(t1) {
                    Some(k2) => {
                        let t2 = tail(t1, k2);
                        match console_register(t2) {
                            Some((k3, locator, is_locator, text)) => match spec_typed_end(
                                kind,
                                tail(t2, k3),
                            ) {
                                Some((k, plaintext, ty)) => Some(
                                    (
                                        k,
                                        InputView {
                                            register: RegisterView { locator, is_locator, text },
                                            ty,
                                            plaintext,
                                        },
                                    ),
                                ),
                                None => None,
                            },
                            None => None,
                        }
                    },
                    None => None,
                }
            } else {
                None
            }
        },
        None => None,
    }
}

/// The view of the result of the input statement parser.
pub open spec fn input_parsed(r: Option<(usize, Input)>) -> Option<(nat, InputView)> {
    match r {
        Some((k, i)) => Some((k as nat, i@)),
        None => None,
    }
}

/// Parses an input statement from the start of the text.
pub fn parse_input(kind: TypeKind, t: &[char]) -> (r: Option<(usize, Input)>)
    ensures
        input_parsed(r) == spec_input_stmt(kind, t@),
        r matches Some((k, _)) ==> k < t@.len(),
{
    let k0 = match crate::console::sanitize(t) {
        Some(k) => k,
        None => return None,
    };
    let t0 = tail_of(t, k0);
    let w = chars_of("input");
    if !has_prefix(t0, &w) {
        return None;
    }
    proof {
        reveal_strlit("input");
    }
    let t1 = tail_of(t0, t0.len() - w.len());
    let k2 = match crate::console::whitespace(t1) {
        Some(k) => k,
        None => return None,
    };
    let t2 = tail_of(t1, k2);
    let (k3, locator, is_locator, text) = match crate::console::register(t2) {
        Some(found) => found,
        None => return None,
    };
    let t3 = tail_of(t2, k3);
    match typed_end(kind, t3) {
        Some((k, plaintext, ty)) => Some(
            (k, Input { register: Register { locator, is_locator, text }, ty, plaintext }),
        ),
        None => None,
    }
}

/// An output statement: `output {operand} as {type};`, after whitespace and comments.
pub open spec fn spec_output_stmt(kind: TypeKind, t: Seq<char>) -> Option<(nat, OutputView)> {
    match console_sanitize(t) {
        Some(k0) => {
            let t0 = tail(t, k0);
            if starts_with(t0, "output"@) {
                let t1 = after(t0, "output"@);
                match console_whitespace(t1) {
                    Some(k2) => {
                        let t2 = tail(t1, k2);
                        match spec_parse_operand(t2) {
                            Some((k3, operand)) => match spec_typed_end(kind, tail(t2, k3)) {
                                Some((k, plaintext, ty)) => Some(
                                    (k, OutputView { operand, ty, plaintext }),
                                ),
                                None => None,
                            },
                            None => None,
                        }
                    },
                    None => None,
                }
            } else {
                None
            }
        },
        None => None,
    }
}

/// The view of the result of the output statement parser.
pub open spec fn output_parsed(r: Option<(usize, Output)>) -> Option<(nat, OutputView)> {
    match r {
        Some((k, o)) => Some((k as nat, o@)),
        None => None,
    }
}

/// Parses an output statement from the start of the text.
pub fn parse_output(kind: TypeKind, t: &[char]) -> (r: Option<(usize, Output)>)
    ensures
        output_parsed(r) == spec_output_stmt(kind, t@),
        r matches Some((k, _)) ==> k < t@.len(),
{
    let k0 = match crate::console::sanitize(t) {
        Some(k) => k,
        None => return None,
    };
    let t0 = tail_of(t, k0);
    let w = chars_of("output");
    if !has_prefix(t0, &w) {
        return None;
    }
    proof {
        reveal_strlit("output");
    }
    let t1 = tail_of(t0, t0.len() - w.len());
    let k2 = match crate::console::whitespace(t1) {
        Some(k) => k,
        None => return None,
    };
    let t2 = tail_of(t1, k2);
    let (k3, operand) = match parse_operand(t2) {
        Some(found) => found,
        None => return None,
    };
    let t3 = tail_of(t2, k3);
    match typed_end(kind, t3) {
        Some((k, plaintext, ty)) => Some((k, Output { operand, ty, plaintext })),
        None => None,
    }
}

/// The text starts with one of the words that begin the statements and scopes of a program
/// rather than a command.
pub open spec fn starts_with_keyword(t: Seq<char>) -> bool {
    ||| starts_with(t, "input"@)
    ||| starts_with(t, "output"@)
    ||| starts_with(t, "finalize"@)
    ||| starts_with(t, "function"@)
    ||| starts_with(t, "closure"@)
    ||| starts_with(t, "view"@)
    ||| starts_with(t, "mapping"@)
    ||| starts_with(t, "struct"@)
    ||| starts_with(t, "record"@)
    ||| starts_with(t, "constructor"@)
    ||| starts_with(t, "import"@)
    ||| starts_with(t, "program"@)
}

fn has_keyword(t: &[char]) -> (r: bool)
    ensures
        r == starts_with_keyword(t@),
{
    has_prefix(t, &chars_of("input")) || has_prefix(t, &chars_of("output")) || has_prefix(
        t,
        &chars_of("finalize"),
    ) || has_prefix(t, &chars_of("function")) || has_prefix(t, &chars_of("closure"))
        || has_prefix(t, &chars_of("view")) || has_prefix(t, &chars_of("mapping")) || has_prefix(
        t,
        &chars_of("struct"),
    ) || has_prefix(t, &chars_of("record")) || has_prefix(t, &chars_of("constructor"))
        || has_prefix(t, &chars_of("import")) || has_prefix(t, &chars_of("program"))
}

/// A command or instruction statement, after whitespace and comments; a statement that
/// starts with a keyword of the program's grammar is not one.
pub open spec fn spec_command_stmt(t: Seq<char>) -> Option<(nat, CommandView)> {
    match console_sanitize(t) {
        Some(k0) => {
            let t0 = tail(t, k0);
            if starts_with_keyword(t0) {
                None
            } else {
                spec_parse_command(t0)
            }
        },
        None => None,
    }
}

/// Parses a command or instruction statement from the start of the text.
pub fn parse_command_stmt(t: &[char]) -> (r: Option<(usize, Command)>)
    ensures
        spec_command_stmt(t@) == match r {
            Some((k, c)) => Some((k as nat, c@)),
            None => None::<(nat, CommandView)>,
        },
        r matches Some((k, _)) ==> k < t@.len(),
{
    let k0 = match crate::console::sanitize(t) {
        Some(k) => k,
        None => return None,
    };
    let t0 = tail_of(t, k0);
    if has_keyword(t0) {
        return None;
    }
    parse_command(t0)
}

/// The input statements at the start of the text, as many as there are: the length of the
/// rest and the statements.
pub open spec fn spec_inputs(kind: TypeKind, t: Seq<char>) -> (nat, Seq<InputView>)
    decreases t.len(),
{
    match spec_input_stmt(kind, t) {
        Some((k, i)) => if k < t.len() {
            let (k2, rest) = spec_inputs(kind, tail(t, k));
            (k2, seq![i] + rest)
        } else {
            (t.len(), Seq::empty())
        },
        None => (t.len(), Seq::empty()),
    }
}

/// The command statements at the start of the text, as many as there are.
pub open spec fn spec_commands(t: Seq<char>) -> (nat, Seq<CommandView>)
    decreases t.len(),
{
    match spec_command_stmt(t) {
        Some((k, c)) => if k < t.len() {
            let (k2, rest) = spec_commands(tail(t, k));
            (k2, seq![c] + rest)
        } else {
            (t.len(), Seq::empty())
        },
        None => (t.len(), Seq::empty()),
    }
}

/// The output statements at the start of the text, as many as there are.
pub open spec fn spec_outputs(kind: TypeKind, t: Seq<char>) -> (nat, Seq<OutputView>)
    decreases t.len(),
{
    match spec_output_stmt(kind, t) {
        Some((k, o)) => if k < t.len() {
            let (k2, rest) = spec_outputs(kind, tail(t, k));
            (k2, seq![o] + rest)
        } else {
            (t.len(), Seq::empty())
        },
        None => (t.len(), Seq::empty()),
    }
}

proof fn lemma_tail_all(t: Seq<char>)
    ensures
        tail(t, t.len()) == t,
{
    assert(tail(t, t.len()) =~= t);
}

/// Reads input statements from the start of the text, as many as there are.
pub fn parse_inputs(kind: TypeKind, t: &[char]) -> (r: (usize, Vec<Input>))
    ensures
        (r.0 as nat, crate::scope::inputs_view(r.1@)) == spec_inputs(kind, t@),
        r.0 <= t@.len(),
{
    let mut k: usize = t.len();
    let mut acc: Vec<Input> = Vec::new();
    proof {
        lemma_tail_all(t@);
        assert(crate::scope::inputs_view(acc@) =~= Seq::<InputView>::empty());
    }
    loop
        invariant
            k <= t@.len(),
            spec_inputs(kind, t@) == (
                spec_inputs(kind, tail(t@, k as nat)).0,
                crate::scope::inputs_view(acc@) + spec_inputs(kind, tail(t@, k as nat)).1,
            ),
        decreases k,
    {
        let cur = tail_of(t, k);
        match parse_input(kind, cur) {
            Some((k2, i)) => {
                proof {
                    lemma_tail_tail(t@, k as nat, k2 as nat);
                    let rest = spec_inputs(kind, tail(t@, k2 as nat)).1;
                    assert(crate::scope::inputs_view(acc@.push(i)) =~= crate::scope::inputs_view(
                        acc@,
                    ).push(i@));
                    assert(crate::scope::inputs_view(acc@) + (seq![i@] + rest) =~= crate::scope::inputs_view(
                        acc@,
                    ).push(i@) + rest);
                }
                acc.push(i);
                k = k2;
            },
            None => {
                assert(crate::scope::inputs_view(acc@) + Seq::<InputView>::empty() =~= crate::scope::inputs_view(
                    acc@,
                ));
                return (k, acc);
            },
        }
    }
}

/// Reads command statements from the start of the text, as many as there are.
pub fn parse_commands(t: &[char]) -> (r: (usize, Vec<Command>))
    ensures
        (r.0 as nat, crate::scope::commands_view(r.1@)) == spec_commands(t@),
        r.0 <= t@.len(),
{
    let mut k: usize = t.len();
    let mut acc: Vec<Command> = Vec::new();
    proof {
        lemma_tail_all(t@);
        assert(crate::scope::commands_view(acc@) =~= Seq::<CommandView>::empty());
    }
    loop
        invariant
            k <= t@.len(),
            spec_commands(t@) == (
                spec_commands(tail(t@, k as nat)).0,
                crate::scope::commands_view(acc@) + spec_commands(tail(t@, k as nat)).1,
            ),
        decreases k,
    {
        let cur = tail_of(t, k);
        match parse_command_stmt(cur) {
            Some((k2, c)) => {
                proof {
                    lemma_tail_tail(t@, k as nat, k2 as nat);
                    let rest = spec_commands(tail(t@, k2 as nat)).1;
                    assert(crate::scope::commands_view(acc@.push(c)) =~= crate::scope::commands_view(
                        acc@,
                    ).push(c@));
                    assert(crate::scope::commands_view(acc@) + (seq![c@] + rest)
                        =~= crate::scope::commands_view(acc@).push(c@) + rest);
                }
                acc.push(c);
                k = k2;
            },
            None => {
                assert(crate::scope::commands_view(acc@) + Seq::<CommandView>::empty()
                    =~= crate::scope::commands_view(acc@));
                return (k, acc);
            },
        }
    }
}

/// Reads output statements from the start of the text, as many as there are.
pub fn parse_outputs(kind: TypeKind, t: &[char]) -> (r: (usize, Vec<Output>))
    ensures
        (r.0 as nat, crate::scope::outputs_view(r.1@)) == spec_outputs(kind, t@),
        r.0 <= t@.len(),
{
    let mut k: usize = t.len();
    let mut acc: Vec<Output> = Vec::new();
    proof {
        lemma_tail_all(t@);
        assert(crate::scope::outputs_view(acc@) =~= Seq::<OutputView>::empty());
    }
    loop
        invariant
            k <= t@.len(),
            spec_outputs(kind, t@) == (
                spec_outputs(kind, tail(t@, k as nat)).0,
                crate::scope::outputs_view(acc@) + spec_outputs(kind, tail(t@, k as nat)).1,
            ),
        decreases k,
    {
        let cur = tail_of(t, k);
        match parse_output(kind, cur) {
            Some((k2, o)) => {
                proof {
                    lemma_tail_tail(t@, k as nat, k2 as nat);
                    let rest = spec_outputs(kind, tail(t@, k2 as nat)).1;
                    assert(crate::scope::outputs_view(acc@.push(o)) =~= crate::scope::outputs_view(
                        acc@,
                    ).push(o@));
                    assert(crate::scope::outputs_view(acc@) + (seq![o@] + rest)
                        =~= crate::scope::outputs_view(acc@).push(o@) + rest);
                }
                acc.push(o);
                k = k2;
            },
            None => {
                assert(crate::scope::outputs_view(acc@) + Seq::<OutputView>::empty()
                    =~= crate::scope::outputs_view(acc@));
                return (k, acc);
            },
        }
    }
}

/// The header of a named scope: `{keyword} {name}:`, after whitespace and comments. The
/// length of the rest and the name.
pub open spec fn spec_header(t: Seq<char>, keyword: Seq<char>) -> Option<(nat, Seq<char>)> {
    match console_sanitize(t) {
        Some(k0) => {
            let t0 = tail(t, k0);
            if starts_with(t0, keyword) {
                let t1 = after(t0, keyword);
                match console_whitespace(t1) {
                    Some(k2) => {
                        let t2 = tail(t1, k2);
                        match console_identifier(t2) {
                            Some((k3, name)) => {
                                let t3 = tail(t2, k3);
                                match console_whitespace(t3) {
                                    Some(k4) => {
                                        let t4 = tail(t3, k4);
                                        if starts_with(t4, ":"@) {
                                            Some(((t4.len() - 1) as nat, name))
                                        } else {
                                            None
                                        }
                                    },
                                    None => None,
                                }
                            },
                            None => None,
                        }
                    },
                    None => None,
                }
            } else {
                None
            }
        },
        None => None,
    }
}

/// Parses the header of a named scope from the start of the text.
pub fn parse_header(t: &[char], keyword: &[char]) -> (r: Option<(usize, Identifier)>)
    ensures
        spec_header(t@, keyword@) == match r {
            Some((k, n)) => Some((k as nat, n@)),
            None => None::<(nat, Seq<char>)>,
        },
        r matches Some((k, _)) ==> k < t@.len(),
{
    let k0 = match crate::console::sanitize(t) {
        Some(k) => k,
        None => return None,
    };
    let t0 = tail_of(t, k0);
    if !has_prefix(t0, keyword) {
        return None;
    }
    let t1 = tail_of(t0, t0.len() - keyword.len());
    let k2 = match crate::console::whitespace(t1) {
        Some(k) => k,
        None => return None,
    };
    let t2 = tail_of(t1, k2);
    let (k3, name) = match crate::console::identifier(t2) {
        Some(found) => found,
        None => return None,
    };
    let t3 = tail_of(t2, k3);
    let k4 = match crate::console::whitespace(t3) {
        Some(k) => k,
        None => return None,
    };
    let t4 = tail_of(t3, k4);
    if !has_prefix(t4, &chars_of(":")) {
        return None;
    }
    proof {
        reveal_strlit(":");
    }
    Some((t4.len() - 1, Identifier { name }))
}

/// The header of the constructor: `constructor:`, after whitespace and comments.
pub open spec fn spec_constructor_header(t: Seq<char>) -> Option<nat> {
    match console_sanitize(t) {
        Some(k0) => {
            let t0 = tail(t, k0);
            if starts_with(t0, "constructor"@) {
                let t1 = after(t0, "constructor"@);
                match console_whitespace(t1) {
                    Some(k2) => {
                        let t2 = tail(t1, k2);
                        if starts_with(t2, ":"@) {
                            Some((t2.len() - 1) as nat)
                        } else {
                            None
                        }
                    },
                    None => None,
                }
            } else {
                None
            }
        },
        None => None,
    }
}

/// Parses the header of the constructor from the start of the text.
pub fn parse_constructor_header(t: &[char]) -> (r: Option<usize>)
    ensures
        spec_constructor_header(t@) == match r {
            Some(k) => Some(k as nat),
            None => None::<nat>,
        },
        r matches Some(k) ==> k < t@.len(),
{
    let k0 = match crate::console::sanitize(t) {
        Some(k) => k,
        None => return None,
    };
    let t0 = tail_of(t, k0);
    let w = chars_of("constructor");
    if !has_prefix(t0, &w) {
        return None;
    }
    let t1 = tail_of(t0, t0.len() - w.len());
    let k2 = match crate::console::whitespace(t1) {
        Some(k) => k,
        None => return None,
    };
    let t2 = tail_of(t1, k2);
    if !has_prefix(t2, &chars_of(":")) {
        return None;
    }
    proof {
        reveal_strlit(":");
    }
    Some(t2.len() - 1)
}

impl Input {
    /// Parses an input statement of a finalize type (as finalize blocks and views have them)
    /// that makes up the whole string.
    pub fn from_str(string: &str) -> (r: Option<Input>)
        ensures
            match spec_input_stmt(TypeKind::Finalize, string@) {
                Some((k, i)) => if k == 0 {
                    r matches Some(x) && x@ == i
                } else {
                    r is None
                },
                None => r is None,
            },
    {
        let s = chars_of(string);
        match parse_input(TypeKind::Finalize, &s) {
            Some((k, i)) => if k == 0 {
                Some(i)
            } else {
                None
            },
            None => None,
        }
    }
}

impl Output {
    /// Parses an output statement of a finalize type (as views have them) from the start of
    /// the string: the rest of the string and the statement.
    pub fn parse(string: &str) -> (r: Option<(String, Output)>)
        ensures
            match spec_output_stmt(TypeKind::Finalize, string@) {
                Some((k, o)) => r matches Some((rest, x)) && rest@ == tail(string@, k) && x@ == o,
                None => r is None,
            },
    {
        let s = chars_of(string);
        match parse_output(TypeKind::Finalize, &s) {
            Some((k, o)) => Some((crate::text::string_of(tail_of(&s, k)), o)),
            None => None,
        }
    }

    /// Parses an output statement of a finalize type that makes up the whole string.
    pub fn from_str(string: &str) -> (r: Option<Output>)
        ensures
            match spec_output_stmt(TypeKind::Finalize, string@) {
                Some((k, o)) => if k == 0 {
                    r matches Some(x) && x@ == o
                } else {
                    r is None
                },
                None => r is None,
            },
    {
        let s = chars_of(string);
        match parse_output(TypeKind::Finalize, &s) {
            Some((k, o)) => if k == 0 {
                Some(o)
            } else {
                None
            },
            None => None,
        }
    }
}

} // verus!
