//! The `call.dynamic` instruction: a call of a function that is named at run time by three
//! operands (program name, network and function name), with typed arguments and typed
//! destinations, as in
//! `call.dynamic r0 r1 r2 with r3 r4 (as address.private u64.private) into r5 (as dynamic.future)`.
use vstd::prelude::*;

use crate::console::{console_register, console_value_type, console_whitespace, mainnet_limits, network_limits, ValueKind};
use crate::operand::{parse_operand, spec_operand_text, spec_parse_operand, tail, Operand, OperandView, Register, RegisterView};
use crate::syntax::{after, tail_of};
use crate::text::{chars_of, has_prefix, push_all, starts_with, string_of};

verus! {

/// A value type: its variant and its printed form.
#[derive(Clone, Debug, PartialEq, Eq)]
pub struct ValueTypeText {
    pub kind: ValueKind,
    pub text: String,
}

/// The mathematical value of a value type.
pub ghost struct ValueTypeView {
    pub kind: ValueKind,
    pub text: Seq<char>,
}

impl View for ValueTypeText {
    type V = ValueTypeView;

    open spec fn view(&self) -> ValueTypeView {
        ValueTypeView { kind: self.kind, text: self.text@ }
    }
}

/// The mathematical value of a `call.dynamic` instruction.
pub ghost struct CallDynamicView {
    pub operands: Seq<OperandView>,
    pub operand_types: Seq<ValueTypeView>,
    pub destinations: Seq<RegisterView>,
    pub destination_types: Seq<ValueTypeView>,
}

/// Why a `call.dynamic` instruction cannot be made.
#[derive(Clone, Copy, Debug, PartialEq, Eq)]
pub enum CallDynamicError {
    /// Fewer than three operands (program name, network and function name).
    TooFewOperands,
    /// More arguments than the most that an instruction may have.
    TooManyOperands,
    /// The number of arguments is not the number of their types.
    OperandTypeCount,
    /// An argument's type is a constant, a record, an external record, a future or a dynamic
    /// future.
    ForbiddenInputType(ValueKind),
    /// More destinations than the most outputs.
    TooManyDestinations,
    /// The number of destinations is not the number of their types.
    DestinationTypeCount,
    /// A destination's type is a constant, a record, an external record or a future.
    ForbiddenOutputType(ValueKind),
}

/// The types that an argument of a dynamic call may not have (`dynamic.record` may).
pub open spec fn forbidden_input(k: ValueKind) -> bool {
    k == ValueKind::Constant || k == ValueKind::Record || k == ValueKind::ExternalRecord || k
        == ValueKind::Future || k == ValueKind::DynamicFuture
}

/// The types that a destination of a dynamic call may not have (`dynamic.record` and
/// `dynamic.future` may).
pub open spec fn forbidden_output(k: ValueKind) -> bool {
    k == ValueKind::Constant || k == ValueKind::Record || k == ValueKind::ExternalRecord || k
        == ValueKind::Future
}

/// The variant of the first type that the test refuses, if any.
pub open spec fn first_forbidden(tys: Seq<ValueTypeView>, input: bool) -> Option<ValueKind>
    decreases tys.len(),
{
    if tys.len() == 0 {
        None
    } else if (input && forbidden_input(tys[0].kind)) || (!input && forbidden_output(tys[0].kind)) {
        Some(tys[0].kind)
    } else {
        first_forbidden(tys.drop_first(), input)
    }
}

/// Why the parts do not make a `call.dynamic` instruction, if they do not. The rules are
/// checked in this order.
pub open spec fn call_dynamic_error(v: CallDynamicView) -> Option<CallDynamicError> {
    let l = mainnet_limits();
    if v.operands.len() < 3 {
        Some(CallDynamicError::TooFewOperands)
    } else if v.operands.len() > l.max_inputs + 3 {
        Some(CallDynamicError::TooManyOperands)
    } else if v.operands.len() - 3 != v.operand_types.len() {
        Some(CallDynamicError::OperandTypeCount)
    } else if first_forbidden(v.operand_types, true) is Some {
        Some(CallDynamicError::ForbiddenInputType(first_forbidden(v.operand_types, true)->0))
    } else if v.destinations.len() > l.max_outputs {
        Some(CallDynamicError::TooManyDestinations)
    } else if v.destinations.len() != v.destination_types.len() {
        Some(CallDynamicError::DestinationTypeCount)
    } else if first_forbidden(v.destination_types, false) is Some {
        Some(CallDynamicError::ForbiddenOutputType(first_forbidden(v.destination_types, false)->0))
    } else {
        None
    }
}

/// A `call.dynamic` instruction.
#[derive(Debug, PartialEq, Eq)]
pub struct CallDynamic {
    operands: Vec<Operand>,
    operand_types: Vec<ValueTypeText>,
    destinations: Vec<Register>,
    destination_types: Vec<ValueTypeText>,
}

/// The views of the operands.
pub open spec fn operands_view(v: Seq<Operand>) -> Seq<OperandView> {
    v.map_values(|o: Operand| o@)
}

/// The views of the value types.
pub open spec fn types_view(v: Seq<ValueTypeText>) -> Seq<ValueTypeView> {
    v.map_values(|t: ValueTypeText| t@)
}

/// The views of the registers.
pub open spec fn registers_view(v: Seq<Register>) -> Seq<RegisterView> {
    v.map_values(|r: Register| r@)
}

impl View for CallDynamic {
    type V = CallDynamicView;

    closed spec fn view(&self) -> CallDynamicView {
        CallDynamicView {
            operands: operands_view(self.operands@),
            operand_types: types_view(self.operand_types@),
            destinations: registers_view(self.destinations@),
            destination_types: types_view(self.destination_types@),
        }
    }
}

fn first_forbidden_of(tys: &Vec<ValueTypeText>, input: bool) -> (r: Option<ValueKind>)
    ensures
        r == first_forbidden(types_view(tys@), input),
{
    let ghost all = types_view(tys@);
    assert(all.skip(0) =~= all);
    let mut i: usize = 0;
    while i < tys.len()
        invariant
            i <= tys@.len(),
            all == types_view(tys@),
            first_forbidden(all, input) == first_forbidden(all.skip(i as int), input),
        decreases tys.len() - i,
    {
        let k = tys[i].kind;
        let bad = if input {
            k == ValueKind::Constant || k == ValueKind::Record || k == ValueKind::ExternalRecord || k
                == ValueKind::Future || k == ValueKind::DynamicFuture
        } else {
            k == ValueKind::Constant || k == ValueKind::Record || k == ValueKind::ExternalRecord || k
                == ValueKind::Future
        };
        assert(all.skip(i as int)[0] == tys@[i as int]@);
        if bad {
            return Some(k);
        }
        assert(all.skip(i as int).drop_first() =~= all.skip(i + 1));
        i = i + 1;
    }
    assert(all.skip(i as int) =~= Seq::<ValueTypeView>::empty());
    None
}

impl CallDynamic {
    /// The instruction's parts agree with its rules.
    pub closed spec fn wf(&self) -> bool {
        call_dynamic_error(self@) is None
    }

    /// Makes a `call.dynamic` instruction: refused for fewer than three operands, more
    /// arguments than the most, argument types that do not match the arguments in number or
    /// that are constants, records, external records or futures, more destinations than the
    /// most outputs, destination types that do not match the destinations in number or that
    /// are constants, records, external records or futures.
    pub fn new(
        operands: Vec<Operand>,
        operand_types: Vec<ValueTypeText>,
        destinations: Vec<Register>,
        destination_types: Vec<ValueTypeText>,
    ) -> (r: Result<CallDynamic, CallDynamicError>)
        ensures
            ({
                let v = CallDynamicView {
                    operands: operands_view(operands@),
                    operand_types: types_view(operand_types@),
                    destinations: registers_view(destinations@),
                    destination_types: types_view(destination_types@),
                };
                match call_dynamic_error(v) {
                    Some(e) => r == Err::<CallDynamic, CallDynamicError>(e),
                    None => r matches Ok(c) && c@ == v && c.wf(),
                }
            }),
    {
        let l = network_limits();
        if operands.len() < 3 {
            return Err(CallDynamicError::TooFewOperands);
        }
        if operands.len() > l.max_inputs + 3 {
            return Err(CallDynamicError::TooManyOperands);
        }
        if operands.len() - 3 != operand_types.len() {
            return Err(CallDynamicError::OperandTypeCount);
        }
        if let Some(k) = first_forbidden_of(&operand_types, true) {
            return Err(CallDynamicError::ForbiddenInputType(k));
        }
        if destinations.len() > l.max_outputs {
            return Err(CallDynamicError::TooManyDestinations);
        }
        if destinations.len() != destination_types.len() {
            return Err(CallDynamicError::DestinationTypeCount);
        }
        if let Some(k) = first_forbidden_of(&destination_types, false) {
            return Err(CallDynamicError::ForbiddenOutputType(k));
        }
        Ok(CallDynamic { operands, operand_types, destinations, destination_types })
    }

    /// A `call.dynamic` instruction has three operands or more, no more than the most inputs
    /// after the third, one type for each operand after the third, no more destinations than
    /// the most outputs, and one type for each destination.
    pub proof fn lemma_wf_counts(c: &CallDynamic)
        requires
            c.wf(),
        ensures
            3 <= c@.operands.len() <= mainnet_limits().max_inputs + 3,
            c@.operand_types.len() == c@.operands.len() - 3,
            c@.destinations.len() <= mainnet_limits().max_outputs,
            c@.destination_types.len() == c@.destinations.len(),
    {
    }

    /// The operands: program name, network, function name, then the arguments.
    pub fn operands(&self) -> (r: &Vec<Operand>)
        ensures
            operands_view(r@) == self@.operands,
    {
        &self.operands
    }

    /// The types of the arguments.
    pub fn operand_types(&self) -> (r: &Vec<ValueTypeText>)
        ensures
            types_view(r@) == self@.operand_types,
    {
        &self.operand_types
    }

    /// The destination registers.
    pub fn destinations(&self) -> (r: &Vec<Register>)
        ensures
            registers_view(r@) == self@.destinations,
    {
        &self.destinations
    }

    /// The types of the destinations.
    pub fn destination_types(&self) -> (r: &Vec<ValueTypeText>)
        ensures
            types_view(r@) == self@.destination_types,
    {
        &self.destination_types
    }
}

/// Whitespace, then an operand, as many times as they can be read, at most `n` times: the
/// length of the rest and the operands.
pub open spec fn spec_ws_operands(t: Seq<char>, n: nat) -> (nat, Seq<OperandView>)
    decreases n,
{
    if n == 0 {
        (t.len(), Seq::empty())
    } else {
        match console_whitespace(t) {
            Some(k) => {
                let u = tail(t, k);
                match spec_parse_operand(u) {
                    Some((k2, o)) => if k2 < t.len() {
                        let (k3, rest) = spec_ws_operands(tail(u, k2), (n - 1) as nat);
                        (k3, seq![o] + rest)
                    } else {
                        (t.len(), Seq::empty())
                    },
                    None => (t.len(), Seq::empty()),
                }
            },
            None => (t.len(), Seq::empty()),
        }
    }
}

/// Whitespace, then a register, as many times as they can be read, at most `n` times: the
/// length of the rest and the registers.
pub open spec fn spec_ws_registers(t: Seq<char>, n: nat) -> (nat, Seq<RegisterView>)
    decreases n,
{
    if n == 0 {
        (t.len(), Seq::empty())
    } else {
        match console_whitespace(t) {
            Some(k) => {
                let u = tail(t, k);
                match console_register(u) {
                    Some((k2, locator, is_locator, text)) => if k2 < t.len() {
                        let (k3, rest) = spec_ws_registers(tail(u, k2), (n - 1) as nat);
                        (k3, seq![RegisterView { locator, is_locator, text }] + rest)
                    } else {
                        (t.len(), Seq::empty())
                    },
                    None => (t.len(), Seq::empty()),
                }
            },
            None => (t.len(), Seq::empty()),
        }
    }
}

/// Whitespace, then a value type, as many times as they can be read: the length of the rest
/// and the types.
pub open spec fn spec_ws_types(t: Seq<char>) -> (nat, Seq<ValueTypeView>)
    decreases t.len(),
{
    match console_whitespace(t) {
        Some(k) => {
            let u = tail(t, k);
            match console_value_type(u) {
                Some((k2, kind, text)) => if k2 < t.len() {
                    let (k3, rest) = spec_ws_types(tail(t, k2));
                    (k3, seq![ValueTypeView { kind, text }] + rest)
                } else {
                    (t.len(), Seq::empty())
                },
                None => (t.len(), Seq::empty()),
            }
        },
        None => (t.len(), Seq::empty()),
    }
}

/// A parenthesized list of value types: `(as {type} {type} ...)`, with whitespace around,
/// at least one type and at most as many as an instruction may have operands.
pub open spec fn spec_type_list(t: Seq<char>) -> Option<(nat, Seq<ValueTypeView>)> {
    match console_whitespace(t) {
        Some(k0) => {
            let t0 = tail(t, k0);
            if starts_with(t0, "("@) {
                let t1 = after(t0, "("@);
                match console_whitespace(t1) {
                    Some(k2) => {
                        let t2 = tail(t1, k2);
                        if starts_with(t2, "as"@) {
                            let t3 = after(t2, "as"@);
                            let (k4, tys) = spec_ws_types(t3);
                            if tys.len() == 0 || tys.len() > mainnet_limits().max_inputs {
                                None
                            } else {
                                let t4 = tail(t3, k4);
                                match console_whitespace(t4) {
                                    Some(k5) => {
                                        let t5 = tail(t4, k5);
                                        if starts_with(t5, ")"@) {
                                            let t6 = after(t5, ")"@);
                                            match console_whitespace(t6) {
                                                Some(k7) => Some((k7, tys)),
                                                None => None,
                                            }
                                        } else {
                                            None
                                        }
                                    },
                                    None => None,
                                }
                            }
                        } else {
                            None
                        }
                    },
                    None => None,
                }
            } else {
                None
            }
        },
        None => None,
    }
}

/// The optional `with {operands} (as {types})` part of a dynamic call: the length of the rest,
/// the arguments and their types (none if the text does not start with `with`).
pub open spec fn spec_with_part(t: Seq<char>) -> Option<(nat, Seq<OperandView>, Seq<ValueTypeView>)> {
    if starts_with(t, "with"@) {
        let t1 = after(t, "with"@);
        match console_whitespace(t1) {
            Some(k2) => {
                let t2 = tail(t1, k2);
                let (k3, ops) = spec_ws_operands(t2, mainnet_limits().max_inputs as nat);
                if ops.len() == 0 {
                    None
                } else {
                    match spec_type_list(tail(t2, k3)) {
                        Some((k4, tys)) => Some((k4, ops, tys)),
                        None => None,
                    }
                }
            },
            None => None,
        }
    } else {
        Some((t.len(), Seq::empty(), Seq::empty()))
    }
}

/// The optional `into {registers} (as {types})` part of a dynamic call: the length of the
/// rest, the destinations and their types (none if the text does not start with `into`).
pub open spec fn spec_into_part(t: Seq<char>) -> Option<(nat, Seq<RegisterView>, Seq<ValueTypeView>)> {
    if starts_with(t, "into"@) {
        let t1 = after(t, "into"@);
        match console_whitespace(t1) {
            Some(k2) => {
                let t2 = tail(t1, k2);
                let (k3, regs) = spec_ws_registers(t2, mainnet_limits().max_inputs as nat);
                if regs.len() == 0 {
                    None
                } else {
                    match spec_type_list(tail(t2, k3)) {
                        Some((k4, tys)) => Some((k4, regs, tys)),
                        None => None,
                    }
                }
            },
            None => None,
        }
    } else {
        Some((t.len(), Seq::empty(), Seq::empty()))
    }
}

/// Whitespace, then an operand: the length of the rest and the operand.
pub open spec fn spec_ws_operand(t: Seq<char>) -> Option<(nat, OperandView)> {
    match console_whitespace(t) {
        Some(k) => spec_parse_operand(tail(t, k)),
        None => None,
    }
}

/// What the `call.dynamic` parser reads from the start of the text: the opcode, the three
/// operands that name the function, the optional arguments, the optional destinations and
/// the whitespace after them; the parts must make an instruction. The length of the rest and
/// the instruction.
pub open spec fn spec_parse_call_dynamic(t: Seq<char>) -> Option<(nat, CallDynamicView)> {
    if !starts_with(t, "call.dynamic"@) {
        None
    } else {
        let t0 = after(t, "call.dynamic"@);
        match spec_ws_operand(t0) {
            Some((k1, o0)) => match spec_ws_operand(tail(t0, k1)) {
                Some((k2, o1)) => match spec_ws_operand(tail(tail(t0, k1), k2)) {
                    Some((k3, o2)) => {
                        let t3 = tail(tail(tail(t0, k1), k2), k3);
                        match console_whitespace(t3) {
                            Some(k4) => match spec_with_part(tail(t3, k4)) {
                                Some((k5, args, arg_types)) => {
                                    let t5 = tail(tail(t3, k4), k5);
                                    match console_whitespace(t5) {
                                        Some(k6) => match spec_into_part(tail(t5, k6)) {
                                            Some((k7, dests, dest_types)) => {
                                                let t7 = tail(tail(t5, k6), k7);
                                                match console_whitespace(t7) {
                                                    Some(k8) => {
                                                        let v = CallDynamicView {
                                                            operands: seq![o0, o1, o2] + args,
                                                            operand_types: arg_types,
                                                            destinations: dests,
                                                            destination_types: dest_types,
                                                        };
                                                        if call_dynamic_error(v) is None {
                                                            Some((k8, v))
                                                        } else {
                                                            None
                                                        }
                                                    },
                                                    None => None,
                                                }
                                            },
                                            None => None,
                                        },
                                        None => None,
                                    }
                                },
                                None => None,
                            },
                            None => None,
                        }
                    },
                    None => None,
                },
                None => None,
            },
            None => None,
        }
    }
}

fn ws_operands(t: &[char], n: usize) -> (r: (usize, Vec<Operand>))
    ensures
        (r.0 as nat, operands_view(r.1@)) == spec_ws_operands(t@, n as nat),
        r.0 <= t@.len(),
    decreases n,
{
    if n == 0 {
        return (t.len(), Vec::new());
    }
    let k = match crate::console::whitespace(t) {
        Some(k) => k,
        None => return (t.len(), Vec::new()),
    };
    let u = tail_of(t, k);
    let (k2, o) = match parse_operand(u) {
        Some(found) => found,
        None => return (t.len(), Vec::new()),
    };
    if k2 >= t.len() {
        return (t.len(), Vec::new());
    }
    let (k3, rest) = ws_operands(tail_of(u, k2), n - 1);
    let mut all: Vec<Operand> = Vec::new();
    all.push(o);
    let mut rest = rest;
    let ghost rest_view = operands_view(rest@);
    all.append(&mut rest);
    assert(operands_view(all@) =~= seq![o@] + rest_view);
    (k3, all)
}

fn ws_registers(t: &[char], n: usize) -> (r: (usize, Vec<Register>))
    ensures
        (r.0 as nat, registers_view(r.1@)) == spec_ws_registers(t@, n as nat),
        r.0 <= t@.len(),
    decreases n,
{
    if n == 0 {
        return (t.len(), Vec::new());
    }
    let k = match crate::console::whitespace(t) {
        Some(k) => k,
        None => return (t.len(), Vec::new()),
    };
    let u = tail_of(t, k);
    let (k2, locator, is_locator, text) = match crate::console::register(u) {
        Some(found) => found,
        None => return (t.len(), Vec::new()),
    };
    if k2 >= t.len() {
        return (t.len(), Vec::new());
    }
    let (k3, rest) = ws_registers(tail_of(u, k2), n - 1);
    let r = Register { locator, is_locator, text };
    let ghost rv = r@;
    let mut all: Vec<Register> = Vec::new();
    all.push(r);
    let mut rest = rest;
    let ghost rest_view = registers_view(rest@);
    all.append(&mut rest);
    assert(registers_view(all@) =~= seq![rv] + rest_view);
    (k3, all)
}

fn ws_types(t: &[char]) -> (r: (usize, Vec<ValueTypeText>))
    ensures
        (r.0 as nat, types_view(r.1@)) == spec_ws_types(t@),
        r.0 <= t@.len(),
    decreases t@.len(),
{
    let k = match crate::console::whitespace(t) {
        Some(k) => k,
        None => return (t.len(), Vec::new()),
    };
    let u = tail_of(t, k);
    let (k2, kind, text) = match crate::console::value_type(u) {
        Some(found) => found,
        None => return (t.len(), Vec::new()),
    };
    if k2 >= t.len() {
        return (t.len(), Vec::new());
    }
    proof {
        crate::syntax::lemma_tail_tail(t@, k as nat, k2 as nat);
    }
    let (k3, rest) = ws_types(tail_of(t, k2));
    let v = ValueTypeText { kind, text };
    let ghost vv = v@;
    let mut all: Vec<ValueTypeText> = Vec::new();
    all.push(v);
    let mut rest = rest;
    let ghost rest_view = types_view(rest@);
    all.append(&mut rest);
    assert(types_view(all@) =~= seq![vv] + rest_view);
    (k3, all)
}

fn type_list(t: &[char]) -> (r: Option<(usize, Vec<ValueTypeText>)>)
    ensures
        spec_type_list(t@) == match r {
            Some((k, tys)) => Some((k as nat, types_view(tys@))),
            None => None::<(nat, Seq<ValueTypeView>)>,
        },
        r matches Some((k, _)) ==> k <= t@.len(),
{
    let k0 = match crate::console::whitespace(t) {
        Some(k) => k,
        None => return None,
    };
    let t0 = tail_of(t, k0);
    let w = chars_of("(");
    if !has_prefix(t0, &w) {
        return None;
    }
    let t1 = tail_of(t0, t0.len() - w.len());
    let k2 = match crate::console::whitespace(t1) {
        Some(k) => k,
        None => return None,
    };
    let t2 = tail_of(t1, k2);
    let w = chars_of("as");
    if !has_prefix(t2, &w) {
        return None;
    }
    let t3 = tail_of(t2, t2.len() - w.len());
    let (k4, tys) = ws_types(t3);
    let l = network_limits();
    if tys.len() == 0 || tys.len() > l.max_inputs {
        return None;
    }
    let t4 = tail_of(t3, k4);
    let k5 = match crate::console::whitespace(t4) {
        Some(k) => k,
        None => return None,
    };
    let t5 = tail_of(t4, k5);
    let w = chars_of(")");
    if !has_prefix(t5, &w) {
        return None;
    }
    let t6 = tail_of(t5, t5.len() - w.len());
    match crate::console::whitespace(t6) {
        Some(k7) => Some((k7, tys)),
        None => None,
    }
}

fn with_part(t: &[char]) -> (r: Option<(usize, Vec<Operand>, Vec<ValueTypeText>)>)
    ensures
        spec_with_part(t@) == match r {
            Some((k, ops, tys)) => Some((k as nat, operands_view(ops@), types_view(tys@))),
            None => None::<(nat, Seq<OperandView>, Seq<ValueTypeView>)>,
        },
        r matches Some((k, _, _)) ==> k <= t@.len(),
{
    let w = chars_of("with");
    if !has_prefix(t, &w) {
        let ops: Vec<Operand> = Vec::new();
        let tys: Vec<ValueTypeText> = Vec::new();
        assert(operands_view(ops@) =~= Seq::<OperandView>::empty());
        assert(types_view(tys@) =~= Seq::<ValueTypeView>::empty());
        return Some((t.len(), ops, tys));
    }
    let t1 = tail_of(t, t.len() - w.len());
    let k2 = match crate::console::whitespace(t1) {
        Some(k) => k,
        None => return None,
    };
    let t2 = tail_of(t1, k2);
    let l = network_limits();
    let (k3, ops) = ws_operands(t2, l.max_inputs);
    if ops.len() == 0 {
        return None;
    }
    match type_list(tail_of(t2, k3)) {
        Some((k4, tys)) => Some((k4, ops, tys)),
        None => None,
    }
}

fn into_part(t: &[char]) -> (r: Option<(usize, Vec<Register>, Vec<ValueTypeText>)>)
    ensures
        spec_into_part(t@) == match r {
            Some((k, regs, tys)) => Some((k as nat, registers_view(regs@), types_view(tys@))),
            None => None::<(nat, Seq<RegisterView>, Seq<ValueTypeView>)>,
        },
        r matches Some((k, _, _)) ==> k <= t@.len(),
{
    let w = chars_of("into");
    if !has_prefix(t, &w) {
        let regs: Vec<Register> = Vec::new();
        let tys: Vec<ValueTypeText> = Vec::new();
        assert(registers_view(regs@) =~= Seq::<RegisterView>::empty());
        assert(types_view(tys@) =~= Seq::<ValueTypeView>::empty());
        return Some((t.len(), regs, tys));
    }
    let t1 = tail_of(t, t.len() - w.len());
    let k2 = match crate::console::whitespace(t1) {
        Some(k) => k,
        None => return None,
    };
    let t2 = tail_of(t1, k2);
    let l = network_limits();
    let (k3, regs) = ws_registers(t2, l.max_inputs);
    if regs.len() == 0 {
        return None;
    }
    match type_list(tail_of(t2, k3)) {
        Some((k4, tys)) => Some((k4, regs, tys)),
        None => None,
    }
}

pub(crate) fn ws_operand(t: &[char]) -> (r: Option<(usize, Operand)>)
    ensures
        spec_ws_operand(t@) == match r {
            Some((k, o)) => Some((k as nat, o@)),
            None => None::<(nat, OperandView)>,
        },
        r matches Some((k, _)) ==> k <= t@.len(),
{
    let k = match crate::console::whitespace(t) {
        Some(k) => k,
        None => return None,
    };
    parse_operand(tail_of(t, k))
}

/// Parses a `call.dynamic` instruction from the start of the characters.
pub fn parse_call_dynamic(t: &[char]) -> (r: Option<(usize, CallDynamic)>)
    ensures
        spec_parse_call_dynamic(t@) == match r {
            Some((k, c)) => Some((k as nat, c@)),
            None => None::<(nat, CallDynamicView)>,
        },
        r matches Some((k, c)) ==> k <= t@.len() && c.wf(),
{
    let w = chars_of("call.dynamic");
    if !has_prefix(t, &w) {
        return None;
    }
    let t0 = tail_of(t, t.len() - w.len());
    let (k1, o0) = match ws_operand(t0) {
        Some(found) => found,
        None => return None,
    };
    let t1 = tail_of(t0, k1);
    let (k2, o1) = match ws_operand(t1) {
        Some(found) => found,
        None => return None,
    };
    let t2 = tail_of(t1, k2);
    let (k3, o2) = match ws_operand(t2) {
        Some(found) => found,
        None => return None,
    };
    let t3 = tail_of(t2, k3);
    let k4 = match crate::console::whitespace(t3) {
        Some(k) => k,
        None => return None,
    };
    let t4 = tail_of(t3, k4);
    let (k5, args, arg_types) = match with_part(t4) {
        Some(found) => found,
        None => return None,
    };
    let t5 = tail_of(t4, k5);
    let k6 = match crate::console::whitespace(t5) {
        Some(k) => k,
        None => return None,
    };
    let t6 = tail_of(t5, k6);
    let (k7, dests, dest_types) = match into_part(t6) {
        Some(found) => found,
        None => return None,
    };
    let t7 = tail_of(t6, k7);
    let k8 = match crate::console::whitespace(t7) {
        Some(k) => k,
        None => return None,
    };
    let ghost head = seq![o0@, o1@, o2@];
    let mut operands: Vec<Operand> = Vec::new();
    operands.push(o0);
    operands.push(o1);
    operands.push(o2);
    let mut args = args;
    let ghost args_view = operands_view(args@);
    operands.append(&mut args);
    assert(operands_view(operands@) =~= head + args_view);
    match CallDynamic::new(operands, arg_types, dests, dest_types) {
        Ok(c) => Some((k8, c)),
        Err(_) => None,
    }
}

/// The printed operands, each after a space.
pub open spec fn spaced_operands(ops: Seq<OperandView>) -> Seq<char>
    decreases ops.len(),
{
    if ops.len() == 0 {
        Seq::empty()
    } else {
        spaced_operands(ops.drop_last()) + " "@ + spec_operand_text(ops.last())
    }
}

/// The printed registers, each after a space.
pub open spec fn spaced_registers(regs: Seq<RegisterView>) -> Seq<char>
    decreases regs.len(),
{
    if regs.len() == 0 {
        Seq::empty()
    } else {
        spaced_registers(regs.drop_last()) + " "@ + regs.last().text
    }
}

/// The printed types, each after a space.
pub open spec fn spaced_types(tys: Seq<ValueTypeView>) -> Seq<char>
    decreases tys.len(),
{
    if tys.len() == 0 {
        Seq::empty()
    } else {
        spaced_types(tys.drop_last()) + " "@ + tys.last().text
    }
}

/// The printed instruction: the opcode and the three operands that name the function, then
/// `with`, the arguments and `(as {types})` if there are arguments, then `into`, the
/// destinations and `(as {types})` if there are destinations.
pub open spec fn call_dynamic_text(v: CallDynamicView) -> Seq<char> {
    "call.dynamic"@ + spaced_operands(v.operands.take(3)) + (if v.operands.len() > 3 {
        " with"@ + spaced_operands(v.operands.skip(3)) + " (as"@ + spaced_types(v.operand_types) + ")"@
    } else {
        Seq::<char>::empty()
    }) + (if v.destinations.len() > 0 {
        " into"@ + spaced_registers(v.destinations) + " (as"@ + spaced_types(v.destination_types) + ")"@
    } else {
        Seq::<char>::empty()
    })
}

pub(crate) fn write_spaced_operands(out: &mut Vec<char>, ops: &[Operand])
    ensures
        final(out)@ == old(out)@ + spaced_operands(operands_view(ops@)),
{
    let ghost start = out@;
    let mut i: usize = 0;
    while i < ops.len()
        invariant
            i <= ops@.len(),
            out@ == start + spaced_operands(operands_view(ops@.subrange(0, i as int))),
        decreases ops.len() - i,
    {
        push_all(out, &chars_of(" "));
        ops[i].write_text(out);
        proof {
            let pre = operands_view(ops@.subrange(0, i as int));
            let post = operands_view(ops@.subrange(0, i + 1));
            assert(post.drop_last() =~= pre);
            assert(out@ =~= start + spaced_operands(post));
        }
        i = i + 1;
    }
    assert(ops@.subrange(0, ops@.len() as int) =~= ops@);
}

fn write_spaced_registers(out: &mut Vec<char>, regs: &Vec<Register>)
    ensures
        final(out)@ == old(out)@ + spaced_registers(registers_view(regs@)),
{
    let ghost start = out@;
    let mut i: usize = 0;
    while i < regs.len()
        invariant
            i <= regs@.len(),
            out@ == start + spaced_registers(registers_view(regs@.subrange(0, i as int))),
        decreases regs.len() - i,
    {
        push_all(out, &chars_of(" "));
        push_all(out, &chars_of(regs[i].text.as_str()));
        proof {
            let pre = registers_view(regs@.subrange(0, i as int));
            let post = registers_view(regs@.subrange(0, i + 1));
            assert(post.drop_last() =~= pre);
            assert(out@ =~= start + spaced_registers(post));
        }
        i = i + 1;
    }
    assert(regs@.subrange(0, regs@.len() as int) =~= regs@);
}

fn write_spaced_types(out: &mut Vec<char>, tys: &Vec<ValueTypeText>)
    ensures
        final(out)@ == old(out)@ + spaced_types(types_view(tys@)),
{
    let ghost start = out@;
    let mut i: usize = 0;
    while i < tys.len()
        invariant
            i <= tys@.len(),
            out@ == start + spaced_types(types_view(tys@.subrange(0, i as int))),
        decreases tys.len() - i,
    {
        push_all(out, &chars_of(" "));
        push_all(out, &chars_of(tys[i].text.as_str()));
        proof {
            let pre = types_view(tys@.subrange(0, i as int));
            let post = types_view(tys@.subrange(0, i + 1));
            assert(post.drop_last() =~= pre);
            assert(out@ =~= start + spaced_types(post));
        }
        i = i + 1;
    }
    assert(tys@.subrange(0, tys@.len() as int) =~= tys@);
}

impl CallDynamic {
    /// Appends the printed instruction to `out`.
    #[verifier::spinoff_prover]
    #[verifier::rlimit(50)]
    pub fn write_text(&self, out: &mut Vec<char>)
        requires
            self.wf(),
        ensures
            final(out)@ == old(out)@ + call_dynamic_text(self@),
    {
        let ghost start = out@;
        push_all(out, &chars_of("call.dynamic"));
        let ops = self.operands.as_slice();
        let head = &ops[0..3];
        assert(operands_view(head@) =~= self@.operands.take(3));
        write_spaced_operands(out, head);
        if self.operands.len() > 3 {
            let rest = &ops[3..ops.len()];
            assert(operands_view(rest@) =~= self@.operands.skip(3));
            push_all(out, &chars_of(" with"));
            write_spaced_operands(out, rest);
            push_all(out, &chars_of(" (as"));
            write_spaced_types(out, &self.operand_types);
            push_all(out, &chars_of(")"));
        }
        let ghost mid = out@;
        if self.destinations.len() > 0 {
            push_all(out, &chars_of(" into"));
            write_spaced_registers(out, &self.destinations);
            push_all(out, &chars_of(" (as"));
            write_spaced_types(out, &self.destination_types);
            push_all(out, &chars_of(")"));
        }
        assert(out@ =~= start + call_dynamic_text(self@));
    }

    /// Returns the printed instruction.
    pub fn to_string(&self) -> (r: String)
        requires
            self.wf(),
        ensures
            r@ == call_dynamic_text(self@),
    {
        let mut out: Vec<char> = Vec::new();
        self.write_text(&mut out);
        assert(out@ =~= call_dynamic_text(self@));
        string_of(&out)
    }

    /// Parses a `call.dynamic` instruction from the start of the string: the rest of the
    /// string and the instruction.
    pub fn parse(string: &str) -> (r: Option<(String, CallDynamic)>)
        ensures
            match spec_parse_call_dynamic(string@) {
                Some((k, c)) => r matches Some((rest, x)) && rest@ == tail(string@, k) && x@ == c && x.wf(),
                None => r is None,
            },
    {
        let s = chars_of(string);
        match parse_call_dynamic(&s) {
            Some((k, c)) => Some((string_of(tail_of(&s, k)), c)),
            None => None,
        }
    }

    /// Parses a `call.dynamic` instruction that makes up the whole string.
    pub fn from_str(string: &str) -> (r: Option<CallDynamic>)
        ensures
            match spec_parse_call_dynamic(string@) {
                Some((k, c)) => if k == 0 {
                    r matches Some(x) && x@ == c && x.wf()
                } else {
                    r is None
                },
                None => r is None,
            },
    {
        let s = chars_of(string);
        match parse_call_dynamic(&s) {
            Some((k, c)) => if k == 0 {
                Some(c)
            } else {
                None
            },
            None => None,
        }
    }
}

impl CallDynamic {
    /// A `call.dynamic` instruction always calls a function.
    pub fn is_function_call(&self) -> (r: bool)
        ensures
            r,
    {
        true
    }
}

} // verus!
