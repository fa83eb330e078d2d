//! The grammar that the operations share: `{opcode} {operands} into {destination} as {type}`,
//! with whitespace between the parts, and its printed form.
use vstd::prelude::*;

use crate::call_dynamic::{operands_view, spaced_operands, spec_ws_operand, ws_operand, write_spaced_operands};
use crate::console::{console_register, console_whitespace};
use crate::operand::{tail, Operand, OperandView, Register, RegisterView};
use crate::syntax::{after, tail_of};
use crate::text::{chars_of, has_prefix, push_all, starts_with, string_of};

verus! {

/// Whitespace, then an operand, exactly `n` times: the length of the rest and the operands.
pub open spec fn spec_ws_operands_exact(t: Seq<char>, n: nat) -> Option<(nat, Seq<OperandView>)>
    decreases n,
{
    if n == 0 {
        Some((t.len(), Seq::empty()))
    } else {
        match spec_ws_operand(t) {
            Some((k, o)) => match spec_ws_operands_exact(tail(t, k), (n - 1) as nat) {
                Some((k2, rest)) => Some((k2, seq![o] + rest)),
                None => None,
            },
            None => None,
        }
    }
}

/// Reads whitespace and an operand exactly `n` times from the start of the characters.
pub fn ws_operands_exact(t: &[char], n: usize) -> (r: Option<(usize, Vec<Operand>)>)
    ensures
        spec_ws_operands_exact(t@, n as nat) == match r {
            Some((k, ops)) => Some((k as nat, operands_view(ops@))),
            None => None::<(nat, Seq<OperandView>)>,
        },
        r matches Some((k, ops)) ==> k <= t@.len() && ops@.len() == n,
    decreases n,
{
    if n == 0 {
        let empty: Vec<Operand> = Vec::new();
        assert(operands_view(empty@) =~= Seq::<OperandView>::empty());
        return Some((t.len(), empty));
    }
    let (k, o) = match ws_operand(t) {
        Some(found) => found,
        None => return None,
    };
    let (k2, rest) = match ws_operands_exact(tail_of(t, k), n - 1) {
        Some(found) => found,
        None => return None,
    };
    let ghost ov = o@;
    let ghost rest_view = operands_view(rest@);
    let mut all: Vec<Operand> = Vec::new();
    all.push(o);
    let mut rest = rest;
    all.append(&mut rest);
    assert(operands_view(all@) =~= seq![ov] + rest_view);
    Some((k2, all))
}

/// Whitespace, then an operand, as many times as they can be read, as nom's `many0` reads
/// them: the length of the rest and the operands, or `None` where a read consumes nothing.
pub open spec fn spec_ws_operands_many(t: Seq<char>) -> Option<(nat, Seq<OperandView>)>
    decreases t.len(),
{
    match spec_ws_operand(t) {
        None => Some((t.len(), Seq::empty())),
        Some((k, o)) => if k >= t.len() {
            None
        } else {
            match spec_ws_operands_many(tail(t, k)) {
                Some((k2, rest)) => Some((k2, seq![o] + rest)),
                None => None,
            }
        },
    }
}

/// Reads whitespace and an operand as many times as they can be read from the start of the
/// characters.
pub fn ws_operands_many(t: &[char]) -> (r: Option<(usize, Vec<Operand>)>)
    ensures
        spec_ws_operands_many(t@) == match r {
            Some((k, ops)) => Some((k as nat, operands_view(ops@))),
            None => None::<(nat, Seq<OperandView>)>,
        },
        r matches Some((k, _)) ==> k <= t@.len(),
    decreases t.len(),
{
    let (k, o) = match ws_operand(t) {
        Some(found) => found,
        None => {
            let empty: Vec<Operand> = Vec::new();
            assert(operands_view(empty@) =~= Seq::<OperandView>::empty());
            return Some((t.len(), empty));
        },
    };
    if k >= t.len() {
        return None;
    }
    let (k2, rest) = match ws_operands_many(tail_of(t, k)) {
        Some(found) => found,
        None => return None,
    };
    let ghost ov = o@;
    let ghost rest_view = operands_view(rest@);
    let mut all: Vec<Operand> = Vec::new();
    all.push(o);
    let mut rest = rest;
    all.append(&mut rest);
    assert(operands_view(all@) =~= seq![ov] + rest_view);
    Some((k2, all))
}

/// Whitespace, `into`, whitespace and a register: the length of the rest and the register.
pub open spec fn spec_into_register(t: Seq<char>) -> Option<(nat, RegisterView)> {
    match console_whitespace(t) {
        Some(k0) => {
            let t0 = tail(t, k0);
            if !starts_with(t0, "into"@) {
                None
            } else {
                let t1 = after(t0, "into"@);
                match console_whitespace(t1) {
                    Some(k2) => match console_register(tail(t1, k2)) {
                        Some((k3, locator, is_locator, text)) => Some((k3, RegisterView { locator, is_locator, text })),
                        None => None,
                    },
                    None => None,
                }
            }
        },
        None => None,
    }
}

/// Reads ` into {register}` from the start of the characters.
pub fn into_register(t: &[char]) -> (r: Option<(usize, Register)>)
    ensures
        spec_into_register(t@) == match r {
            Some((k, reg)) => Some((k as nat, reg@)),
            None => None::<(nat, RegisterView)>,
        },
        r matches Some((k, _)) ==> k <= t@.len(),
{
    let k0 = match crate::console::whitespace(t) {
        Some(k) => k,
        None => return None,
    };
    let t0 = tail_of(t, k0);
    let w = chars_of("into");
    if !has_prefix(t0, &w) {
        return None;
    }
    let t1 = tail_of(t0, t0.len() - w.len());
    let k2 = match crate::console::whitespace(t1) {
        Some(k) => k,
        None => return None,
    };
    match crate::console::register(tail_of(t1, k2)) {
        Some((k3, locator, is_locator, text)) => Some((k3, Register { locator, is_locator, text })),
        None => None,
    }
}

/// Whitespace, `into`, whitespace, a register, whitespace, `as` and whitespace: the length of
/// the rest and the register.
pub open spec fn spec_into_register_as(t: Seq<char>) -> Option<(nat, RegisterView)> {
    match spec_into_register(t) {
        Some((k, destination)) => match console_whitespace(tail(t, k)) {
            Some(k4) => {
                let t4 = tail(tail(t, k), k4);
                if !starts_with(t4, "as"@) {
                    None
                } else {
                    match console_whitespace(after(t4, "as"@)) {
                        Some(k6) => Some((k6, destination)),
                        None => None,
                    }
                }
            },
            None => None,
        },
        None => None,
    }
}

/// Reads ` into {register} as ` from the start of the characters.
pub fn into_register_as(t: &[char]) -> (r: Option<(usize, Register)>)
    ensures
        spec_into_register_as(t@) == match r {
            Some((k, reg)) => Some((k as nat, reg@)),
            None => None::<(nat, RegisterView)>,
        },
        r matches Some((k, _)) ==> k <= t@.len(),
{
    let (k, destination) = match into_register(t) {
        Some(found) => found,
        None => return None,
    };
    let t3 = tail_of(t, k);
    let k4 = match crate::console::whitespace(t3) {
        Some(k) => k,
        None => return None,
    };
    let t4 = tail_of(t3, k4);
    let w = chars_of("as");
    if !has_prefix(t4, &w) {
        return None;
    }
    match crate::console::whitespace(tail_of(t4, t4.len() - w.len())) {
        Some(k6) => Some((k6, destination)),
        None => None,
    }
}

/// What an operation with `n` operands and no type reads from the start of the text: the
/// opcode, the operands, `into` and the destination register, with whitespace between them.
/// The length of the rest, the operands and the destination.
pub open spec fn spec_parse_into(opcode: Seq<char>, n: nat, t: Seq<char>) -> Option<(nat, Seq<OperandView>, RegisterView)> {
    if !starts_with(t, opcode) {
        None
    } else {
        let t0 = after(t, opcode);
        match spec_ws_operands_exact(t0, n) {
            Some((k1, operands)) => match spec_into_register(tail(t0, k1)) {
                Some((k2, destination)) => Some((k2, operands, destination)),
                None => None,
            },
            None => None,
        }
    }
}

/// Reads an operation with `n` operands and no type from the start of the characters.
pub fn parse_into(opcode: &str, n: usize, t: &[char]) -> (r: Option<(usize, Vec<Operand>, Register)>)
    ensures
        spec_parse_into(opcode@, n as nat, t@) == match r {
            Some((k, ops, reg)) => Some((k as nat, operands_view(ops@), reg@)),
            None => None::<(nat, Seq<OperandView>, RegisterView)>,
        },
        r matches Some((k, ops, _)) ==> k <= t@.len() && ops@.len() == n,
{
    let op = chars_of(opcode);
    if !has_prefix(t, &op) {
        return None;
    }
    let t0 = tail_of(t, t.len() - op.len());
    let (k1, operands) = match ws_operands_exact(t0, n) {
        Some(found) => found,
        None => return None,
    };
    match into_register(tail_of(t0, k1)) {
        Some((k2, destination)) => Some((k2, operands, destination)),
        None => None,
    }
}

/// The printed operation without a type: the opcode, the operands each after a space, then
/// ` into {destination}`.
pub open spec fn into_text(opcode: Seq<char>, ops: Seq<OperandView>, destination: RegisterView) -> Seq<char> {
    opcode + spaced_operands(ops) + " into "@ + destination.text
}

/// Returns the printed operation without a type.
pub fn into_string(opcode: &str, ops: &[Operand], destination: &Register) -> (r: String)
    ensures
        r@ == into_text(opcode@, operands_view(ops@), destination@),
{
    let mut out: Vec<char> = Vec::new();
    push_all(&mut out, &chars_of(opcode));
    write_spaced_operands(&mut out, ops);
    push_all(&mut out, &chars_of(" into "));
    push_all(&mut out, &chars_of(destination.text.as_str()));
    assert(out@ =~= into_text(opcode@, operands_view(ops@), destination@));
    string_of(&out)
}

/// The printed operation up to its type: the opcode, the operands each after a space, then
/// ` into {destination} as `.
pub open spec fn into_as_text(opcode: Seq<char>, ops: Seq<OperandView>, destination: RegisterView) -> Seq<char> {
    opcode + spaced_operands(ops) + " into "@ + destination.text + " as "@
}

/// Appends the printed operation up to its type to the characters.
pub fn write_into_as(out: &mut Vec<char>, opcode: &str, ops: &[Operand], destination: &Register)
    ensures
        final(out)@ == old(out)@ + into_as_text(opcode@, operands_view(ops@), destination@),
{
    let ghost start = out@;
    push_all(out, &chars_of(opcode));
    write_spaced_operands(out, ops);
    push_all(out, &chars_of(" into "));
    push_all(out, &chars_of(destination.text.as_str()));
    push_all(out, &chars_of(" as "));
    assert(out@ =~= start + into_as_text(opcode@, operands_view(ops@), destination@));
}

} // verus!
