//! The byte encoding of `call.dynamic`: the number of operands (one byte), the operands, the
//! arguments' types, the number of destinations (one byte), the destinations and their types.
use vstd::prelude::*;

use crate::call_dynamic::{
    call_dynamic_error, registers_view, types_view, CallDynamic, CallDynamicView, ValueTypeText,
    ValueTypeView,
};
use crate::console::{console_read_value_type, console_value_type, console_value_type_bytes};
use crate::op_bytes::{
    append_bytes, left, left_of, lemma_left, normal_operands, normal_register, read_operands, read_register,
    spec_operands_bytes, spec_read_operands, spec_read_register, spec_register_bytes, write_operands, write_register,
};
use crate::operand::{Register, RegisterView};
use crate::text::chars_of;

verus! {

/// The bytes of the value types, one after another.
pub open spec fn spec_types_bytes(ts: Seq<ValueTypeView>) -> Option<Seq<u8>>
    decreases ts.len(),
{
    if ts.len() == 0 {
        Some(Seq::empty())
    } else {
        match (console_value_type_bytes(ts[0].text), spec_types_bytes(ts.drop_first())) {
            (Some(a), Some(b)) => Some(a + b),
            _ => None,
        }
    }
}

/// `n` value types read one after another from the bytes.
pub open spec fn spec_read_types(b: Seq<u8>, n: nat) -> Option<(nat, Seq<ValueTypeView>)>
    decreases n,
{
    if n == 0 {
        Some((b.len(), Seq::empty()))
    } else {
        match console_read_value_type(b) {
            Some((k, kind, text)) => match spec_read_types(left(b, k), (n - 1) as nat) {
                Some((k2, rest)) => Some((k2, seq![ValueTypeView { kind, text }] + rest)),
                None => None,
            },
            None => None,
        }
    }
}

/// The value type as console reads it back from its printed form.
pub open spec fn normal_value_type(t: ValueTypeView) -> ValueTypeView {
    let x = console_value_type(t.text)->0;
    ValueTypeView { kind: x.1, text: x.2 }
}

/// The value types as console reads them back from their printed forms.
pub open spec fn normal_types(ts: Seq<ValueTypeView>) -> Seq<ValueTypeView> {
    ts.map_values(|t: ValueTypeView| normal_value_type(t))
}

/// The bytes of the registers, one after another.
pub open spec fn spec_registers_bytes(rs: Seq<RegisterView>) -> Option<Seq<u8>>
    decreases rs.len(),
{
    if rs.len() == 0 {
        Some(Seq::empty())
    } else {
        match (spec_register_bytes(rs[0]), spec_registers_bytes(rs.drop_first())) {
            (Some(a), Some(b)) => Some(a + b),
            _ => None,
        }
    }
}

/// `n` registers read one after another from the bytes.
pub open spec fn spec_read_registers(b: Seq<u8>, n: nat) -> Option<(nat, Seq<RegisterView>)>
    decreases n,
{
    if n == 0 {
        Some((b.len(), Seq::empty()))
    } else {
        match spec_read_register(b) {
            Some((k, r)) => match spec_read_registers(left(b, k), (n - 1) as nat) {
                Some((k2, rest)) => Some((k2, seq![r] + rest)),
                None => None,
            },
            None => None,
        }
    }
}

/// The registers as console reads them back from their printed forms.
pub open spec fn normal_registers(rs: Seq<RegisterView>) -> Seq<RegisterView> {
    rs.map_values(|r: RegisterView| normal_register(r))
}

fn write_types(out: &mut Vec<u8>, ts: &[ValueTypeText]) -> (ok: bool)
    ensures
        ok == spec_types_bytes(types_view(ts@)) is Some,
        ok ==> final(out)@ == old(out)@ + spec_types_bytes(types_view(ts@))->0,
        ok ==> forall|rest: Seq<u8>|
            #[trigger] spec_read_types(spec_types_bytes(types_view(ts@))->0 + rest, ts@.len()) == Some(
                (rest.len(), normal_types(types_view(ts@))),
            ),
    decreases ts@.len(),
{
    let ghost v = types_view(ts@);
    if ts.len() == 0 {
        assert forall|rest: Seq<u8>| #[trigger] spec_read_types(Seq::<u8>::empty() + rest, 0) == Some(
            (rest.len(), normal_types(v)),
        ) by {
            assert(Seq::<u8>::empty() + rest =~= rest);
            assert(normal_types(v) =~= Seq::<ValueTypeView>::empty());
        }
        assert(old(out)@ + Seq::<u8>::empty() =~= old(out)@);
        return true;
    }
    let first = match crate::console::value_type_bytes(&chars_of(ts[0].text.as_str())) {
        Some(b) => b,
        None => return false,
    };
    let tail = &ts[1..ts.len()];
    assert(types_view(tail@) =~= v.drop_first());
    let mut more: Vec<u8> = Vec::new();
    if !write_types(&mut more, tail) {
        return false;
    }
    append_bytes(out, first.as_slice());
    append_bytes(out, more.as_slice());
    proof {
        let a = first@;
        let m = more@;
        assert(more@ =~= Seq::<u8>::empty() + m);
        assert(spec_types_bytes(v) == Some(a + m));
        assert(final(out)@ =~= old(out)@ + (a + m));
        assert forall|rest: Seq<u8>| #[trigger] spec_read_types((a + m) + rest, ts@.len()) == Some(
            (rest.len(), normal_types(v)),
        ) by {
            assert((a + m) + rest =~= a + (m + rest));
            lemma_left(a, m + rest);
            assert(Seq::<u8>::empty() + m + rest =~= m + rest);
            assert(spec_read_types(m + rest, (ts@.len() - 1) as nat) == Some((rest.len(), normal_types(v.drop_first()))));
            assert(normal_types(v) =~= seq![normal_value_type(v[0])] + normal_types(v.drop_first()));
        }
    }
    true
}

fn read_types(b: &[u8], n: usize) -> (r: Option<(usize, Vec<ValueTypeText>)>)
    ensures
        spec_read_types(b@, n as nat) == match r {
            Some((k, ts)) => Some((k as nat, types_view(ts@))),
            None => None::<(nat, Seq<ValueTypeView>)>,
        },
        r matches Some((k, ts)) ==> k <= b@.len() && ts@.len() == n,
    decreases n,
{
    if n == 0 {
        let empty: Vec<ValueTypeText> = Vec::new();
        assert(types_view(empty@) =~= Seq::<ValueTypeView>::empty());
        return Some((b.len(), empty));
    }
    let (k, kind, text) = match crate::console::read_value_type(b) {
        Some(found) => found,
        None => return None,
    };
    let (k2, rest) = match read_types(left_of(b, k), n - 1) {
        Some(found) => found,
        None => return None,
    };
    let t = ValueTypeText { kind, text };
    let ghost tv = t@;
    let ghost rest_view = types_view(rest@);
    let mut all: Vec<ValueTypeText> = Vec::new();
    all.push(t);
    let mut rest = rest;
    all.append(&mut rest);
    assert(types_view(all@) =~= seq![tv] + rest_view);
    Some((k2, all))
}

fn write_registers(out: &mut Vec<u8>, rs: &[Register]) -> (ok: bool)
    ensures
        ok == spec_registers_bytes(registers_view(rs@)) is Some,
        ok ==> final(out)@ == old(out)@ + spec_registers_bytes(registers_view(rs@))->0,
        ok ==> forall|rest: Seq<u8>|
            #[trigger] spec_read_registers(spec_registers_bytes(registers_view(rs@))->0 + rest, rs@.len()) == Some(
                (rest.len(), normal_registers(registers_view(rs@))),
            ),
    decreases rs@.len(),
{
    let ghost v = registers_view(rs@);
    if rs.len() == 0 {
        assert forall|rest: Seq<u8>| #[trigger] spec_read_registers(Seq::<u8>::empty() + rest, 0) == Some(
            (rest.len(), normal_registers(v)),
        ) by {
            assert(Seq::<u8>::empty() + rest =~= rest);
            assert(normal_registers(v) =~= Seq::<RegisterView>::empty());
        }
        assert(old(out)@ + Seq::<u8>::empty() =~= old(out)@);
        return true;
    }
    let mut first: Vec<u8> = Vec::new();
    if !write_register(&mut first, &rs[0]) {
        return false;
    }
    let tail = &rs[1..rs.len()];
    assert(registers_view(tail@) =~= v.drop_first());
    let mut more: Vec<u8> = Vec::new();
    if !write_registers(&mut more, tail) {
        return false;
    }
    append_bytes(out, first.as_slice());
    append_bytes(out, more.as_slice());
    proof {
        let a = first@;
        let m = more@;
        assert(first@ =~= Seq::<u8>::empty() + a);
        assert(more@ =~= Seq::<u8>::empty() + m);
        assert(spec_registers_bytes(v) == Some(a + m));
        assert(final(out)@ =~= old(out)@ + (a + m));
        assert forall|rest: Seq<u8>| #[trigger] spec_read_registers((a + m) + rest, rs@.len()) == Some(
            (rest.len(), normal_registers(v)),
        ) by {
            assert((a + m) + rest =~= a + (m + rest));
            assert(spec_read_register(a + (m + rest)) == Some(((m + rest).len(), normal_register(v[0]))));
            lemma_left(a, m + rest);
            assert(Seq::<u8>::empty() + m + rest =~= m + rest);
            assert(spec_read_registers(m + rest, (rs@.len() - 1) as nat) == Some(
                (rest.len(), normal_registers(v.drop_first())),
            ));
            assert(normal_registers(v) =~= seq![normal_register(v[0])] + normal_registers(v.drop_first()));
        }
    }
    true
}

fn read_registers(b: &[u8], n: usize) -> (r: Option<(usize, Vec<Register>)>)
    ensures
        spec_read_registers(b@, n as nat) == match r {
            Some((k, rs)) => Some((k as nat, registers_view(rs@))),
            None => None::<(nat, Seq<RegisterView>)>,
        },
        r matches Some((k, rs)) ==> k <= b@.len() && rs@.len() == n,
    decreases n,
{
    if n == 0 {
        let empty: Vec<Register> = Vec::new();
        assert(registers_view(empty@) =~= Seq::<RegisterView>::empty());
        return Some((b.len(), empty));
    }
    let (k, r) = match read_register(b) {
        Some(found) => found,
        None => return None,
    };
    let (k2, rest) = match read_registers(left_of(b, k), n - 1) {
        Some(found) => found,
        None => return None,
    };
    let ghost rv = r@;
    let ghost rest_view = registers_view(rest@);
    let mut all: Vec<Register> = Vec::new();
    all.push(r);
    let mut rest = rest;
    all.append(&mut rest);
    assert(registers_view(all@) =~= seq![rv] + rest_view);
    Some((k2, all))
}

/// The bytes of a `call.dynamic` instruction: the number of operands, the operands, the
/// arguments' types, the number of destinations, the destinations and their types.
pub open spec fn spec_call_dynamic_bytes(v: CallDynamicView) -> Option<Seq<u8>> {
    match (
        spec_operands_bytes(v.operands),
        spec_types_bytes(v.operand_types),
        spec_registers_bytes(v.destinations),
        spec_types_bytes(v.destination_types),
    ) {
        (Some(a), Some(b), Some(c), Some(d)) => Some(
            seq![v.operands.len() as u8] + a + b + seq![v.destinations.len() as u8] + c + d,
        ),
        _ => None,
    }
}

/// A `call.dynamic` instruction read from the bytes: at least three operands, the types of
/// the operands after the third, the destinations and their types, which must make a
/// `call.dynamic` instruction. The number of bytes left and the instruction.
pub open spec fn spec_read_call_dynamic(b: Seq<u8>) -> Option<(nat, CallDynamicView)> {
    if b.len() == 0 || b[0] < 3 {
        None
    } else {
        let n = b[0] as nat;
        match spec_read_operands(b.drop_first(), n) {
            Some((k1, operands)) => match spec_read_types(left(b.drop_first(), k1), (n - 3) as nat) {
                Some((k2, operand_types)) => {
                    let t2 = left(left(b.drop_first(), k1), k2);
                    if t2.len() == 0 {
                        None
                    } else {
                        let m = t2[0] as nat;
                        match spec_read_registers(t2.drop_first(), m) {
                            Some((k3, destinations)) => match spec_read_types(left(t2.drop_first(), k3), m) {
                                Some((k4, destination_types)) => {
                                    let v = CallDynamicView { operands, operand_types, destinations, destination_types };
                                    if call_dynamic_error(v) is None {
                                        Some((k4, v))
                                    } else {
                                        None
                                    }
                                },
                                None => None,
                            },
                            None => None,
                        }
                    }
                },
                None => None,
            },
            None => None,
        }
    }
}

/// The instruction as console reads back what its parts hold.
pub open spec fn normal_call_dynamic(v: CallDynamicView) -> CallDynamicView {
    CallDynamicView {
        operands: normal_operands(v.operands),
        operand_types: normal_types(v.operand_types),
        destinations: normal_registers(v.destinations),
        destination_types: normal_types(v.destination_types),
    }
}

impl CallDynamic {
    /// Writes the instruction as bytes: `None` where console cannot write what a part holds.
    /// Reading the bytes back gives the instruction as console reads back what it holds,
    /// whatever follows, where that still makes a `call.dynamic` instruction.
    pub fn write_le(&self) -> (r: Option<Vec<u8>>)
        requires
            self.wf(),
        ensures
            spec_call_dynamic_bytes(self@) == match r {
                Some(b) => Some(b@),
                None => None::<Seq<u8>>,
            },
            r matches Some(b) ==> forall|rest: Seq<u8>|
                #[trigger] spec_read_call_dynamic(b@ + rest) == if call_dynamic_error(normal_call_dynamic(self@))
                    is None {
                    Some((rest.len(), normal_call_dynamic(self@)))
                } else {
                    None
                },
    {
        let ghost v = self@;
        proof {
            CallDynamic::lemma_wf_counts(self);
        }
        let n = self.operands().len();
        let m = self.destinations().len();
        let mut a: Vec<u8> = Vec::new();
        let mut b: Vec<u8> = Vec::new();
        let mut c: Vec<u8> = Vec::new();
        let mut d: Vec<u8> = Vec::new();
        if !write_operands(&mut a, self.operands().as_slice()) || !write_types(&mut b, self.operand_types().as_slice())
            || !write_registers(&mut c, self.destinations().as_slice()) || !write_types(
            &mut d,
            self.destination_types().as_slice(),
        ) {
            return None;
        }
        let mut out: Vec<u8> = Vec::new();
        out.push(n as u8);
        append_bytes(&mut out, a.as_slice());
        append_bytes(&mut out, b.as_slice());
        out.push(m as u8);
        append_bytes(&mut out, c.as_slice());
        append_bytes(&mut out, d.as_slice());
        proof {
            assert(a@ =~= Seq::<u8>::empty() + a@);
            assert(b@ =~= Seq::<u8>::empty() + b@);
            assert(c@ =~= Seq::<u8>::empty() + c@);
            assert(d@ =~= Seq::<u8>::empty() + d@);
            let x = seq![n as u8];
            let y = seq![m as u8];
            assert(out@ =~= x + a@ + b@ + y + c@ + d@);
            assert forall|rest: Seq<u8>| #[trigger] spec_read_call_dynamic(out@ + rest) == if call_dynamic_error(
                normal_call_dynamic(v),
            ) is None {
                Some((rest.len(), normal_call_dynamic(v)))
            } else {
                None
            } by {
                let r4 = d@ + rest;
                let r3 = c@ + r4;
                let r2 = y + r3;
                let r1 = b@ + r2;
                let r0 = a@ + r1;
                assert(out@ + rest =~= x + r0);
                assert((x + r0)[0] == n as u8);
                assert((x + r0).drop_first() =~= r0);
                assert(spec_read_operands(r0, n as nat) == Some((r1.len(), normal_operands(v.operands))));
                lemma_left(a@, r1);
                assert(spec_read_types(r1, (n - 3) as nat) == Some((r2.len(), normal_types(v.operand_types))));
                lemma_left(b@, r2);
                assert(r2[0] == m as u8);
                assert(r2.drop_first() =~= r3);
                assert(spec_read_registers(r3, m as nat) == Some((r4.len(), normal_registers(v.destinations))));
                lemma_left(c@, r4);
                assert(spec_read_types(r4, m as nat) == Some((rest.len(), normal_types(v.destination_types))));
            }
        }
        Some(out)
    }

    /// Reads a `call.dynamic` instruction from the start of the bytes: the number of bytes
    /// left and the instruction.
    pub fn read_le(b: &[u8]) -> (r: Option<(usize, CallDynamic)>)
        ensures
            spec_read_call_dynamic(b@) == match r {
                Some((k, c)) => Some((k as nat, c@)),
                None => None::<(nat, CallDynamicView)>,
            },
            r matches Some((k, c)) ==> k <= b@.len() && c.wf(),
    {
        if b.len() == 0 || b[0] < 3 {
            return None;
        }
        let n = b[0] as usize;
        let b0 = &b[1..b.len()];
        assert(b0@ =~= b@.drop_first());
        let (k1, operands) = match read_operands(b0, n) {
            Some(found) => found,
            None => return None,
        };
        let b1 = left_of(b0, k1);
        let (k2, operand_types) = match read_types(b1, n - 3) {
            Some(found) => found,
            None => return None,
        };
        let t2 = left_of(b1, k2);
        if t2.len() == 0 {
            return None;
        }
        let m = t2[0] as usize;
        let b2 = &t2[1..t2.len()];
        assert(b2@ =~= t2@.drop_first());
        let (k3, destinations) = match read_registers(b2, m) {
            Some(found) => found,
            None => return None,
        };
        let (k4, destination_types) = match read_types(left_of(b2, k3), m) {
            Some(found) => found,
            None => return None,
        };
        match CallDynamic::new(operands, operand_types, destinations, destination_types) {
            Ok(c) => Some((k4, c)),
            Err(_) => None,
        }
    }
}

} // verus!
