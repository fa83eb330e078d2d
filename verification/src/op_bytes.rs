//! The pieces that the byte encodings of the operations are made of: operands, registers and
//! plaintext types written one after another, and read back in the same order.
use vstd::prelude::*;

use crate::bytes::{normal_operand, spec_operand_bytes, spec_read_operand};
use crate::console::{
    console_plaintext_type, console_plaintext_type_bytes, console_read_plaintext_type, console_read_register,
    console_register, console_register_bytes, };
use crate::operand::{Operand, OperandView, Register, RegisterView};
use crate::plaintext::plaintext_type_text;
use crate::text::chars_of;
use crate::types::{PlaintextType, PlaintextTypeView};

verus! {

/// The last `k` bytes.
pub open spec fn left(b: Seq<u8>, k: nat) -> Seq<u8> {
    b.subrange(b.len() - k, b.len() as int)
}

/// Returns the last `k` bytes.
pub fn left_of(b: &[u8], k: usize) -> (r: &[u8])
    requires
        k <= b@.len(),
    ensures
        r@ == left(b@, k as nat),
{
    &b[b.len() - k..b.len()]
}

/// Appends the bytes.
pub fn append_bytes(out: &mut Vec<u8>, b: &[u8])
    ensures
        final(out)@ == old(out)@ + b@,
{
    let mut i: usize = 0;
    while i < b.len()
        invariant
            i <= b@.len(),
            out@ == old(out)@ + b@.subrange(0, i as int),
        decreases b.len() - i,
    {
        out.push(b[i]);
        i = i + 1;
        assert(b@.subrange(0, i as int) =~= b@.subrange(0, i - 1).push(b@[i - 1]));
    }
    assert(b@.subrange(0, b@.len() as int) =~= b@);
}

/// What follows a prefix is what is left after it.
pub proof fn lemma_left(a: Seq<u8>, b: Seq<u8>)
    ensures
        left(a + b, b.len()) == b,
{
    assert(left(a + b, b.len()) =~= b);
}

/// The bytes of a register, or `None` where console cannot write it.
pub open spec fn spec_register_bytes(r: RegisterView) -> Option<Seq<u8>> {
    console_register_bytes(r.text)
}

/// A register read from the bytes: the number of bytes left and the register.
pub open spec fn spec_read_register(b: Seq<u8>) -> Option<(nat, RegisterView)> {
    match console_read_register(b) {
        Some((k, locator, is_locator, text)) => Some((k, RegisterView { locator, is_locator, text })),
        None => None,
    }
}

/// The register as console reads it back from its printed form.
pub open spec fn normal_register(r: RegisterView) -> RegisterView {
    let x = console_register(r.text)->0;
    RegisterView { locator: x.1, is_locator: x.2, text: x.3 }
}

/// Appends the bytes of the register: `false` where console cannot write it.
pub fn write_register(out: &mut Vec<u8>, r: &Register) -> (ok: bool)
    ensures
        ok == spec_register_bytes(r@) is Some,
        ok ==> final(out)@ == old(out)@ + spec_register_bytes(r@)->0,
        ok ==> forall|rest: Seq<u8>|
            #[trigger] spec_read_register(spec_register_bytes(r@)->0 + rest) == Some((rest.len(), normal_register(r@))),
{
    match crate::console::register_bytes(&chars_of(r.text.as_str())) {
        Some(b) => {
            append_bytes(out, b.as_slice());
            true
        },
        None => false,
    }
}

/// Reads a register from the start of the bytes.
pub fn read_register(b: &[u8]) -> (r: Option<(usize, Register)>)
    ensures
        spec_read_register(b@) == match r {
            Some((k, reg)) => Some((k as nat, reg@)),
            None => None::<(nat, RegisterView)>,
        },
        r matches Some((k, _)) ==> k <= b@.len(),
{
    match crate::console::read_register(b) {
        Some((k, locator, is_locator, text)) => Some((k, Register { locator, is_locator, text })),
        None => None,
    }
}

/// The bytes of a plaintext type: console's bytes of the type that console reads from its
/// printed form, or `None` where console cannot read it.
pub open spec fn spec_plaintext_bytes(p: PlaintextTypeView) -> Option<Seq<u8>> {
    console_plaintext_type_bytes(plaintext_type_text(p))
}

/// The plaintext type as console reads it back from its printed form.
pub open spec fn normal_plaintext_type(p: PlaintextTypeView) -> PlaintextTypeView {
    (console_plaintext_type(plaintext_type_text(p))->0).1
}

/// Appends the bytes of the plaintext type: `false` where console cannot write it.
pub fn write_plaintext_type(out: &mut Vec<u8>, p: &PlaintextType) -> (ok: bool)
    ensures
        ok == spec_plaintext_bytes(p@) is Some,
        ok ==> final(out)@ == old(out)@ + spec_plaintext_bytes(p@)->0,
        ok ==> forall|rest: Seq<u8>|
            #[trigger] console_read_plaintext_type(spec_plaintext_bytes(p@)->0 + rest) == Some(
                (rest.len(), normal_plaintext_type(p@)),
            ),
{
    let mut text: Vec<char> = Vec::new();
    p.write_text(&mut text);
    assert(text@ =~= plaintext_type_text(p@));
    match crate::console::plaintext_type_bytes(text.as_slice()) {
        Some(b) => {
            append_bytes(out, b.as_slice());
            true
        },
        None => false,
    }
}

/// Reads a plaintext type from the start of the bytes.
pub fn read_plaintext_type(b: &[u8]) -> (r: Option<(usize, PlaintextType)>)
    ensures
        console_read_plaintext_type(b@) == match r {
            Some((k, p)) => Some((k as nat, p@)),
            None => None::<(nat, PlaintextTypeView)>,
        },
        r matches Some((k, _)) ==> k <= b@.len(),
{
    let (k, base, lengths) = match crate::console::read_plaintext_type(b) {
        Some(found) => found,
        None => return None,
    };
    let p = crate::plaintext::nest(base, &lengths);
    Some((k, p))
}

/// The bytes of the operands, one after another, or `None` where console cannot write one.
pub open spec fn spec_operands_bytes(ops: Seq<OperandView>) -> Option<Seq<u8>>
    decreases ops.len(),
{
    if ops.len() == 0 {
        Some(Seq::empty())
    } else {
        match (spec_operand_bytes(ops[0]), spec_operands_bytes(ops.drop_first())) {
            (Some(a), Some(b)) => Some(a + b),
            _ => None,
        }
    }
}

/// `n` operands read one after another from the bytes: the number of bytes left and the
/// operands.
pub open spec fn spec_read_operands(b: Seq<u8>, n: nat) -> Option<(nat, Seq<OperandView>)>
    decreases n,
{
    if n == 0 {
        Some((b.len(), Seq::empty()))
    } else {
        match spec_read_operand(b) {
            Some((k, o)) => match spec_read_operands(left(b, k), (n - 1) as nat) {
                Some((k2, rest)) => Some((k2, seq![o] + rest)),
                None => None,
            },
            None => None,
        }
    }
}

/// The operands as console reads back what they hold.
pub open spec fn normal_operands(ops: Seq<OperandView>) -> Seq<OperandView> {
    ops.map_values(|o: OperandView| normal_operand(o))
}

/// Appends the bytes of the operands: `false` where console cannot write one.
pub fn write_operands(out: &mut Vec<u8>, ops: &[Operand]) -> (ok: bool)
    ensures
        ok == spec_operands_bytes(crate::call_dynamic::operands_view(ops@)) is Some,
        ok ==> final(out)@ == old(out)@ + spec_operands_bytes(crate::call_dynamic::operands_view(ops@))->0,
        ok ==> forall|rest: Seq<u8>|
            #[trigger] spec_read_operands(
                spec_operands_bytes(crate::call_dynamic::operands_view(ops@))->0 + rest,
                ops@.len(),
            ) == Some((rest.len(), normal_operands(crate::call_dynamic::operands_view(ops@)))),
    decreases ops@.len(),
{
    let ghost v = crate::call_dynamic::operands_view(ops@);
    if ops.len() == 0 {
        assert forall|rest: Seq<u8>| #[trigger] spec_read_operands(Seq::<u8>::empty() + rest, 0) == Some(
            (rest.len(), normal_operands(v)),
        ) by {
            assert(Seq::<u8>::empty() + rest =~= rest);
            assert(normal_operands(v) =~= Seq::<OperandView>::empty());
        }
        assert(old(out)@ + Seq::<u8>::empty() =~= old(out)@);
        return true;
    }
    let first = match ops[0].write_le() {
        Some(b) => b,
        None => return false,
    };
    let tail = &ops[1..ops.len()];
    assert(crate::call_dynamic::operands_view(tail@) =~= v.drop_first());
    let mut more: Vec<u8> = Vec::new();
    if !write_operands(&mut more, tail) {
        return false;
    }
    append_bytes(out, first.as_slice());
    append_bytes(out, more.as_slice());
    proof {
        let a = first@;
        let m = more@;
        assert(more@ =~= Seq::<u8>::empty() + m);
        assert(spec_operands_bytes(v) == Some(a + m));
        assert(final(out)@ =~= old(out)@ + (a + m));
        assert forall|rest: Seq<u8>| #[trigger] spec_read_operands((a + m) + rest, ops@.len()) == Some(
            (rest.len(), normal_operands(v)),
        ) by {
            assert((a + m) + rest =~= a + (m + rest));
            assert(spec_read_operand(a + (m + rest)) == Some(((m + rest).len(), normal_operand(v[0]))));
            lemma_left(a, m + rest);
            assert(Seq::<u8>::empty() + m + rest =~= m + rest);
            assert(spec_read_operands(m + rest, (ops@.len() - 1) as nat) == Some(
                (rest.len(), normal_operands(v.drop_first())),
            ));
            assert(normal_operands(v) =~= seq![normal_operand(v[0])] + normal_operands(v.drop_first()));
        }
    }
    true
}

/// Reads `n` operands one after another from the start of the bytes.
pub fn read_operands(b: &[u8], n: usize) -> (r: Option<(usize, Vec<Operand>)>)
    ensures
        spec_read_operands(b@, n as nat) == match r {
            Some((k, ops)) => Some((k as nat, crate::call_dynamic::operands_view(ops@))),
            None => None::<(nat, Seq<OperandView>)>,
        },
        r matches Some((k, ops)) ==> k <= b@.len() && ops@.len() == n,
    decreases n,
{
    if n == 0 {
        let empty: Vec<Operand> = Vec::new();
        assert(crate::call_dynamic::operands_view(empty@) =~= Seq::<OperandView>::empty());
        return Some((b.len(), empty));
    }
    let (k, o) = match Operand::read_le(b) {
        Some(found) => found,
        None => return None,
    };
    let (k2, rest) = match read_operands(left_of(b, k), n - 1) {
        Some(found) => found,
        None => return None,
    };
    let ghost ov = o@;
    let ghost rest_view = crate::call_dynamic::operands_view(rest@);
    let mut all: Vec<Operand> = Vec::new();
    all.push(o);
    let mut rest = rest;
    all.append(&mut rest);
    assert(crate::call_dynamic::operands_view(all@) =~= seq![ov] + rest_view);
    Some((k2, all))
}

/// The bytes of operands followed by a register.
pub open spec fn spec_ops_register_bytes(ops: Seq<OperandView>, r: RegisterView) -> Option<Seq<u8>> {
    match (spec_operands_bytes(ops), spec_register_bytes(r)) {
        (Some(a), Some(b)) => Some(a + b),
        _ => None,
    }
}

/// `n` operands and a register read from the bytes: the number of bytes left, the operands
/// and the register.
pub open spec fn spec_read_ops_register(b: Seq<u8>, n: nat) -> Option<(nat, Seq<OperandView>, RegisterView)> {
    match spec_read_operands(b, n) {
        Some((k, ops)) => match spec_read_register(left(b, k)) {
            Some((k2, r)) => Some((k2, ops, r)),
            None => None,
        },
        None => None,
    }
}

/// Appends the bytes of the operands and the register: `false` where console cannot write
/// one of them.
pub fn write_ops_register(out: &mut Vec<u8>, ops: &[Operand], r: &Register) -> (ok: bool)
    ensures
        ok == spec_ops_register_bytes(crate::call_dynamic::operands_view(ops@), r@) is Some,
        ok ==> final(out)@ == old(out)@ + spec_ops_register_bytes(crate::call_dynamic::operands_view(ops@), r@)->0,
        ok ==> forall|rest: Seq<u8>|
            #[trigger] spec_read_ops_register(
                spec_ops_register_bytes(crate::call_dynamic::operands_view(ops@), r@)->0 + rest,
                ops@.len(),
            ) == Some(
                (rest.len(), normal_operands(crate::call_dynamic::operands_view(ops@)), normal_register(r@)),
            ),
{
    let ghost v = crate::call_dynamic::operands_view(ops@);
    let mut a: Vec<u8> = Vec::new();
    if !write_operands(&mut a, ops) {
        return false;
    }
    let mut b: Vec<u8> = Vec::new();
    if !write_register(&mut b, r) {
        return false;
    }
    append_bytes(out, a.as_slice());
    append_bytes(out, b.as_slice());
    proof {
        let x = spec_operands_bytes(v)->0;
        let y = spec_register_bytes(r@)->0;
        assert(a@ =~= x);
        assert(b@ =~= y);
        assert(final(out)@ =~= old(out)@ + (x + y));
        assert forall|rest: Seq<u8>| #[trigger] spec_read_ops_register((x + y) + rest, ops@.len()) == Some(
            (rest.len(), normal_operands(v), normal_register(r@)),
        ) by {
            assert((x + y) + rest =~= x + (y + rest));
            lemma_left(x, y + rest);
        }
    }
    true
}

/// Reads `n` operands and a register from the start of the bytes.
pub fn read_ops_register(b: &[u8], n: usize) -> (r: Option<(usize, Vec<Operand>, Register)>)
    ensures
        spec_read_ops_register(b@, n as nat) == match r {
            Some((k, ops, reg)) => Some((k as nat, crate::call_dynamic::operands_view(ops@), reg@)),
            None => None::<(nat, Seq<OperandView>, RegisterView)>,
        },
        r matches Some((k, ops, _)) ==> k <= b@.len() && ops@.len() == n,
{
    let (k, ops) = match read_operands(b, n) {
        Some(found) => found,
        None => return None,
    };
    match read_register(left_of(b, k)) {
        Some((k2, reg)) => Some((k2, ops, reg)),
        None => None,
    }
}

/// The bytes of operands, a register and a plaintext type, one after another.
pub open spec fn spec_ops_register_type_bytes(ops: Seq<OperandView>, r: RegisterView, p: PlaintextTypeView) -> Option<
    Seq<u8>,
> {
    match (spec_ops_register_bytes(ops, r), spec_plaintext_bytes(p)) {
        (Some(a), Some(b)) => Some(a + b),
        _ => None,
    }
}

/// `n` operands, a register and a plaintext type read from the bytes.
pub open spec fn spec_read_ops_register_type(b: Seq<u8>, n: nat) -> Option<
    (nat, Seq<OperandView>, RegisterView, PlaintextTypeView),
> {
    match spec_read_ops_register(b, n) {
        Some((k, ops, r)) => match console_read_plaintext_type(left(b, k)) {
            Some((k2, p)) => Some((k2, ops, r, p)),
            None => None,
        },
        None => None,
    }
}

/// Appends the bytes of the operands, the register and the plaintext type: `false` where
/// console cannot write one of them.
pub fn write_ops_register_type(out: &mut Vec<u8>, ops: &[Operand], r: &Register, p: &PlaintextType) -> (ok: bool)
    ensures
        ok == spec_ops_register_type_bytes(crate::call_dynamic::operands_view(ops@), r@, p@) is Some,
        ok ==> final(out)@ == old(out)@ + spec_ops_register_type_bytes(
            crate::call_dynamic::operands_view(ops@),
            r@,
            p@,
        )->0,
        ok ==> forall|rest: Seq<u8>|
            #[trigger] spec_read_ops_register_type(
                spec_ops_register_type_bytes(crate::call_dynamic::operands_view(ops@), r@, p@)->0 + rest,
                ops@.len(),
            ) == Some(
                (
                    rest.len(),
                    normal_operands(crate::call_dynamic::operands_view(ops@)),
                    normal_register(r@),
                    normal_plaintext_type(p@),
                ),
            ),
{
    let ghost v = crate::call_dynamic::operands_view(ops@);
    let mut a: Vec<u8> = Vec::new();
    if !write_ops_register(&mut a, ops, r) {
        return false;
    }
    let mut b: Vec<u8> = Vec::new();
    if !write_plaintext_type(&mut b, p) {
        return false;
    }
    append_bytes(out, a.as_slice());
    append_bytes(out, b.as_slice());
    proof {
        let x = spec_ops_register_bytes(v, r@)->0;
        let y = spec_plaintext_bytes(p@)->0;
        assert(a@ =~= x);
        assert(b@ =~= y);
        assert(final(out)@ =~= old(out)@ + (x + y));
        assert forall|rest: Seq<u8>| #[trigger] spec_read_ops_register_type((x + y) + rest, ops@.len()) == Some(
            (rest.len(), normal_operands(v), normal_register(r@), normal_plaintext_type(p@)),
        ) by {
            assert((x + y) + rest =~= x + (y + rest));
            assert(spec_read_ops_register(x + (y + rest), ops@.len()) == Some(
                ((y + rest).len(), normal_operands(v), normal_register(r@)),
            ));
            lemma_left(x, y + rest);
        }
    }
    true
}

/// Reads `n` operands, a register and a plaintext type from the start of the bytes.
pub fn read_ops_register_type(b: &[u8], n: usize) -> (r: Option<(usize, Vec<Operand>, Register, PlaintextType)>)
    ensures
        spec_read_ops_register_type(b@, n as nat) == match r {
            Some((k, ops, reg, p)) => Some((k as nat, crate::call_dynamic::operands_view(ops@), reg@, p@)),
            None => None::<(nat, Seq<OperandView>, RegisterView, PlaintextTypeView)>,
        },
        r matches Some((k, ops, _, _)) ==> k <= b@.len() && ops@.len() == n,
{
    let (k, ops, reg) = match read_ops_register(b, n) {
        Some(found) => found,
        None => return None,
    };
    match read_plaintext_type(left_of(b, k)) {
        Some((k2, p)) => Some((k2, ops, reg, p)),
        None => None,
    }
}

/// The bytes of an array type as console's `ArrayType::write_le` writes them: the bytes of the
/// plaintext type after the variant byte `2` that marks an array.
pub open spec fn spec_array_bytes(p: PlaintextTypeView) -> Option<Seq<u8>> {
    match spec_plaintext_bytes(p) {
        Some(b) => if b.len() > 0 && b[0] == 2 {
            Some(b.drop_first())
        } else {
            None
        },
        None => None,
    }
}

/// An array type read from the bytes as console's `ArrayType::read_le` reads it: what console
/// reads as a plaintext type after the variant byte `2` that marks an array.
pub open spec fn spec_read_array_type(b: Seq<u8>) -> Option<(nat, PlaintextTypeView)> {
    match console_read_plaintext_type(seq![2u8] + b) {
        Some((k, p)) => if k <= b.len() {
            Some((k, p))
        } else {
            None
        },
        None => None,
    }
}

/// Appends the bytes of the array type: `false` where console cannot write it.
pub fn write_array_type(out: &mut Vec<u8>, p: &PlaintextType) -> (ok: bool)
    ensures
        ok == spec_array_bytes(p@) is Some,
        ok ==> final(out)@ == old(out)@ + spec_array_bytes(p@)->0,
        ok ==> forall|rest: Seq<u8>|
            #[trigger] spec_read_array_type(spec_array_bytes(p@)->0 + rest) == Some(
                (rest.len(), normal_plaintext_type(p@)),
            ),
{
    let mut b: Vec<u8> = Vec::new();
    if !write_plaintext_type(&mut b, p) {
        return false;
    }
    if b.len() == 0 || b[0] != 2 {
        return false;
    }
    let tail = &b.as_slice()[1..b.len()];
    assert(tail@ =~= b@.drop_first());
    append_bytes(out, tail);
    proof {
        assert forall|rest: Seq<u8>| #[trigger] spec_read_array_type(b@.drop_first() + rest) == Some(
            (rest.len(), normal_plaintext_type(p@)),
        ) by {
            assert(seq![2u8] + (b@.drop_first() + rest) =~= b@ + rest);
        }
    }
    true
}

/// Reads an array type from the start of the bytes.
pub fn read_array_type(b: &[u8]) -> (r: Option<(usize, PlaintextType)>)
    ensures
        spec_read_array_type(b@) == match r {
            Some((k, p)) => Some((k as nat, p@)),
            None => None::<(nat, PlaintextTypeView)>,
        },
        r matches Some((k, _)) ==> k <= b@.len(),
{
    let mut marked: Vec<u8> = Vec::new();
    marked.push(2u8);
    append_bytes(&mut marked, b);
    assert(marked@ =~= seq![2u8] + b@);
    match read_plaintext_type(marked.as_slice()) {
        Some((k, p)) => if k <= b.len() {
            Some((k, p))
        } else {
            None
        },
        None => None,
    }
}

} // verus!
