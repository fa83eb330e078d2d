//! The byte encoding of casts: the number of operands (one byte, or `255` and two bytes where
//! there are 255 or more), the operands, the destination and the cast type (a tag byte and
//! what the type holds).
use vstd::prelude::*;

use crate::bytes::{lemma_tag, normal_program_id, tagged};
use crate::call_dynamic::operands_view;
use crate::cast::{cast_parts_ok, CastOperation, CastType, CastTypeView, CastView};
use crate::console::{
    console_identifier, console_identifier_bytes, console_program_id_bytes, console_read_identifier,
    console_read_plaintext_type, data_limits, mainnet_data_limits,
};
use crate::op_bytes::{
    append_bytes, left, left_of, lemma_left, normal_operands, normal_plaintext_type, normal_register,
    read_operands, read_plaintext_type, read_register, spec_operands_bytes, spec_plaintext_bytes,
    spec_read_operands, spec_read_register, spec_register_bytes, write_operands, write_plaintext_type,
    write_register,
};
use crate::operand::{program_id_text, Identifier, ProgramID, ProgramIDView};
use crate::text::chars_of;

verus! {

/// The bytes of a cast type: `0` for the x-coordinate of a group element, `1` for the
/// y-coordinate, `2` and a plaintext type, `3` and the name of a record, `4` and the program
/// ID and name of a record of another program, `5` for a dynamic record.
pub open spec fn spec_cast_type_bytes(c: CastTypeView) -> Option<Seq<u8>> {
    match c {
        CastTypeView::GroupXCoordinate => Some(seq![0u8]),
        CastTypeView::GroupYCoordinate => Some(seq![1u8]),
        CastTypeView::Plaintext(p) => tagged(2, spec_plaintext_bytes(p)),
        CastTypeView::Record(n) => tagged(3, console_identifier_bytes(n)),
        CastTypeView::ExternalRecord(p, n) => match (console_program_id_bytes(program_id_text(p)), console_identifier_bytes(n)) {
            (Some(a), Some(b)) => Some(seq![4u8] + (a + b)),
            _ => None,
        },
        CastTypeView::DynamicRecord => Some(seq![5u8]),
    }
}

/// A cast type read from the bytes: the number of bytes left and the cast type.
pub open spec fn spec_read_cast_type(b: Seq<u8>) -> Option<(nat, CastTypeView)> {
    if b.len() == 0 {
        None
    } else {
        let rest = b.drop_first();
        if b[0] == 0 {
            Some((rest.len(), CastTypeView::GroupXCoordinate))
        } else if b[0] == 1 {
            Some((rest.len(), CastTypeView::GroupYCoordinate))
        } else if b[0] == 2 {
            match console_read_plaintext_type(rest) {
                Some((k, p)) => Some((k, CastTypeView::Plaintext(p))),
                None => None,
            }
        } else if b[0] == 3 {
            match console_read_identifier(rest) {
                Some((k, n)) => Some((k, CastTypeView::Record(n))),
                None => None,
            }
        } else if b[0] == 4 {
            match crate::console::console_read_program_id(rest) {
                Some((k, name, network)) => match console_read_identifier(left(rest, k)) {
                    Some((k2, n)) => Some((k2, CastTypeView::ExternalRecord(ProgramIDView { name, network }, n))),
                    None => None,
                },
                None => None,
            }
        } else if b[0] == 5 {
            Some((rest.len(), CastTypeView::DynamicRecord))
        } else {
            None
        }
    }
}

/// The cast type as console reads back what it holds from the printed forms.
pub open spec fn normal_cast_type(c: CastTypeView) -> CastTypeView {
    match c {
        CastTypeView::Plaintext(p) => CastTypeView::Plaintext(normal_plaintext_type(p)),
        CastTypeView::Record(n) => CastTypeView::Record((console_identifier(n)->0).1),
        CastTypeView::ExternalRecord(p, n) => CastTypeView::ExternalRecord(
            normal_program_id(p),
            (console_identifier(n)->0).1,
        ),
        _ => c,
    }
}

impl CastType {
    /// Writes the cast type as bytes: `None` where console cannot write what it holds. Reading
    /// the bytes back gives the cast type as console reads back what it holds, whatever
    /// follows.
    pub fn write_le(&self) -> (r: Option<Vec<u8>>)
        ensures
            spec_cast_type_bytes(self@) == match r {
                Some(b) => Some(b@),
                None => None::<Seq<u8>>,
            },
            r matches Some(b) ==> forall|rest: Seq<u8>|
                #[trigger] spec_read_cast_type(b@ + rest) == Some((rest.len(), normal_cast_type(self@))),
    {
        let mut out: Vec<u8> = Vec::new();
        match self {
            CastType::GroupXCoordinate => out.push(0u8),
            CastType::GroupYCoordinate => out.push(1u8),
            CastType::Plaintext(p) => {
                out.push(2u8);
                let mut b: Vec<u8> = Vec::new();
                if !write_plaintext_type(&mut b, p) {
                    return None;
                }
                append_bytes(&mut out, b.as_slice());
                assert forall|rest: Seq<u8>| #[trigger] spec_read_cast_type(out@ + rest) == Some(
                    (rest.len(), normal_cast_type(self@)),
                ) by {
                    assert(out@ =~= seq![2u8] + b@);
                    lemma_tag(2, b@, rest);
                }
            },
            CastType::Record(n) => {
                out.push(3u8);
                let b = match crate::console::identifier_bytes(&chars_of(n.name.as_str())) {
                    Some(b) => b,
                    None => return None,
                };
                append_bytes(&mut out, b.as_slice());
                assert forall|rest: Seq<u8>| #[trigger] spec_read_cast_type(out@ + rest) == Some(
                    (rest.len(), normal_cast_type(self@)),
                ) by {
                    assert(out@ =~= seq![3u8] + b@);
                    lemma_tag(3, b@, rest);
                }
            },
            CastType::ExternalRecord(p, n) => {
                let mut id_text: Vec<char> = Vec::new();
                crate::operand::write_program_id(&mut id_text, p);
                assert(id_text@ =~= program_id_text(p@));
                let a = match crate::console::program_id_bytes(id_text.as_slice()) {
                    Some(a) => a,
                    None => return None,
                };
                let b = match crate::console::identifier_bytes(&chars_of(n.name.as_str())) {
                    Some(b) => b,
                    None => return None,
                };
                out.push(4u8);
                append_bytes(&mut out, a.as_slice());
                append_bytes(&mut out, b.as_slice());
                assert forall|rest: Seq<u8>| #[trigger] spec_read_cast_type(out@ + rest) == Some(
                    (rest.len(), normal_cast_type(self@)),
                ) by {
                    assert(out@ =~= seq![4u8] + (a@ + b@));
                    lemma_tag(4, a@ + b@, rest);
                    assert((a@ + b@) + rest =~= a@ + (b@ + rest));
                    lemma_left(a@, b@ + rest);
                }
            },
            CastType::DynamicRecord => out.push(5u8),
        }
        assert(spec_cast_type_bytes(self@) == Some(out@));
        assert forall|rest: Seq<u8>| #[trigger] spec_read_cast_type(out@ + rest) == Some(
            (rest.len(), normal_cast_type(self@)),
        ) by {
            match self@ {
                CastTypeView::GroupXCoordinate | CastTypeView::GroupYCoordinate | CastTypeView::DynamicRecord => {
                    assert((out@ + rest).drop_first() =~= rest);
                },
                _ => {},
            }
        }
        Some(out)
    }

    /// Reads a cast type from the start of the bytes: the number of bytes left and the cast
    /// type.
    pub fn read_le(b: &[u8]) -> (r: Option<(usize, CastType)>)
        ensures
            spec_read_cast_type(b@) == match r {
                Some((k, c)) => Some((k as nat, c@)),
                None => None::<(nat, CastTypeView)>,
            },
            r matches Some((k, _)) ==> k <= b@.len(),
    {
        if b.len() == 0 {
            return None;
        }
        let rest = &b[1..b.len()];
        assert(rest@ =~= b@.drop_first());
        let tag = b[0];
        if tag == 0 {
            Some((rest.len(), CastType::GroupXCoordinate))
        } else if tag == 1 {
            Some((rest.len(), CastType::GroupYCoordinate))
        } else if tag == 2 {
            match read_plaintext_type(rest) {
                Some((k, p)) => Some((k, CastType::Plaintext(p))),
                None => None,
            }
        } else if tag == 3 {
            match crate::console::read_identifier(rest) {
                Some((k, name)) => Some((k, CastType::Record(Identifier { name }))),
                None => None,
            }
        } else if tag == 4 {
            match crate::console::read_program_id(rest) {
                Some((k, name, network)) => match crate::console::read_identifier(left_of(rest, k)) {
                    Some((k2, n)) => Some((k2, CastType::ExternalRecord(ProgramID { name, network }, Identifier { name: n }))),
                    None => None,
                },
                None => None,
            }
        } else if tag == 5 {
            Some((rest.len(), CastType::DynamicRecord))
        } else {
            None
        }
    }
}

/// The bytes of the number of operands: one byte below 255, otherwise `255` and the number in
/// two little-endian bytes.
pub open spec fn count_bytes(n: nat) -> Seq<u8> {
    if n >= 255 {
        seq![255u8, (n % 256) as u8, (n / 256) as u8]
    } else {
        seq![n as u8]
    }
}

/// The number of operands read from the bytes: the number of bytes left and the number.
pub open spec fn spec_read_count(b: Seq<u8>) -> Option<(nat, nat)> {
    if b.len() == 0 {
        None
    } else if b[0] == 255 {
        if b.len() < 3 {
            None
        } else {
            Some(((b.len() - 3) as nat, (b[1] + 256 * b[2]) as nat))
        }
    } else {
        Some(((b.len() - 1) as nat, b[0] as nat))
    }
}

/// The bytes of a cast: the number of operands, the operands, the destination and the cast
/// type.
pub open spec fn spec_cast_bytes(c: CastView) -> Option<Seq<u8>> {
    match (
        spec_operands_bytes(c.operands),
        spec_register_bytes(c.destination),
        spec_cast_type_bytes(c.cast_type),
    ) {
        (Some(a), Some(b), Some(t)) => Some(count_bytes(c.operands.len()) + a + b + t),
        _ => None,
    }
}

/// A cast of the variant read from the bytes: a number of operands between one and the
/// network's most array elements, the operands, the destination and the cast type, which must
/// make a cast. The number of bytes left and the cast.
pub open spec fn spec_read_cast(variant: u8, b: Seq<u8>) -> Option<(nat, CastView)> {
    match spec_read_count(b) {
        Some((k0, n)) => if n == 0 || n > mainnet_data_limits().max_array_elements {
            None
        } else {
            match spec_read_operands(left(b, k0), n) {
                Some((k1, operands)) => match spec_read_register(left(left(b, k0), k1)) {
                    Some((k2, destination)) => match spec_read_cast_type(left(left(left(b, k0), k1), k2)) {
                        Some((k3, cast_type)) => if cast_parts_ok(cast_type, operands, destination) {
                            Some((k3, CastView { variant, operands, destination, cast_type }))
                        } else {
                            None
                        },
                        None => None,
                    },
                    None => None,
                },
                None => None,
            }
        },
        None => None,
    }
}

/// The cast as console reads back what its parts hold.
pub open spec fn normal_cast(c: CastView) -> CastView {
    CastView {
        variant: c.variant,
        operands: normal_operands(c.operands),
        destination: normal_register(c.destination),
        cast_type: normal_cast_type(c.cast_type),
    }
}

fn write_count(out: &mut Vec<u8>, n: usize)
    requires
        n <= 2048,
    ensures
        final(out)@ == old(out)@ + count_bytes(n as nat),
        forall|rest: Seq<u8>| #[trigger] spec_read_count(count_bytes(n as nat) + rest) == Some((rest.len(), n as nat)),
{
    if n >= 255 {
        out.push(255u8);
        out.push((n % 256) as u8);
        out.push((n / 256) as u8);
        assert(final(out)@ =~= old(out)@ + count_bytes(n as nat));
        assert(n % 256 + 256 * (n / 256) == n) by (nonlinear_arith);
        assert forall|rest: Seq<u8>| #[trigger] spec_read_count(count_bytes(n as nat) + rest) == Some(
            (rest.len(), n as nat),
        ) by {
            let w = count_bytes(n as nat) + rest;
            assert(w[0] == 255u8 && w[1] == (n % 256) as u8 && w[2] == (n / 256) as u8);
        }
    } else {
        out.push(n as u8);
        assert(final(out)@ =~= old(out)@ + count_bytes(n as nat));
        assert forall|rest: Seq<u8>| #[trigger] spec_read_count(count_bytes(n as nat) + rest) == Some(
            (rest.len(), n as nat),
        ) by {
            let w = count_bytes(n as nat) + rest;
            assert(w[0] == n as u8);
        }
    }
}

fn read_count(b: &[u8]) -> (r: Option<(usize, usize)>)
    ensures
        spec_read_count(b@) == match r {
            Some((k, n)) => Some((k as nat, n as nat)),
            None => None::<(nat, nat)>,
        },
        r matches Some((k, _)) ==> k <= b@.len(),
{
    if b.len() == 0 {
        None
    } else if b[0] == 255 {
        if b.len() < 3 {
            None
        } else {
            Some((b.len() - 3, b[1] as usize + 256 * (b[2] as usize)))
        }
    } else {
        Some((b.len() - 1, b[0] as usize))
    }
}

proof fn lemma_cast_parts(c: Seq<u8>, a: Seq<u8>, b: Seq<u8>, t: Seq<u8>, rest: Seq<u8>)
    ensures
        (c + a + b + t) + rest == c + (a + (b + (t + rest))),
        left(c + (a + (b + (t + rest))), (a + (b + (t + rest))).len()) == a + (b + (t + rest)),
        left(a + (b + (t + rest)), (b + (t + rest)).len()) == b + (t + rest),
        left(b + (t + rest), (t + rest).len()) == t + rest,
{
    assert((c + a + b + t) + rest =~= c + (a + (b + (t + rest))));
    lemma_left(c, a + (b + (t + rest)));
    lemma_left(a, b + (t + rest));
    lemma_left(b, t + rest);
}

impl CastOperation {
    /// Writes the cast as bytes: `None` where console cannot write what a part holds. Reading
    /// the bytes back gives the cast as console reads back what it holds, whatever follows,
    /// where that still makes a cast.
    pub fn write_le(&self) -> (r: Option<Vec<u8>>)
        requires
            self.wf(),
        ensures
            spec_cast_bytes(self@) == match r {
                Some(b) => Some(b@),
                None => None::<Seq<u8>>,
            },
            r matches Some(b) ==> forall|rest: Seq<u8>|
                #[trigger] spec_read_cast(self@.variant, b@ + rest) == if cast_parts_ok(
                    normal_cast(self@).cast_type,
                    normal_cast(self@).operands,
                    normal_cast(self@).destination,
                ) {
                    Some((rest.len(), normal_cast(self@)))
                } else {
                    None
                },
    {
        let n = self.operands().len();
        proof {
            assert(self@.operands.len() <= crate::cast::max_cast_operands(self@.cast_type));
            assert(crate::cast::max_cast_operands(self@.cast_type) <= 2048);
        }
        let mut c: Vec<u8> = Vec::new();
        write_count(&mut c, n);
        let mut a: Vec<u8> = Vec::new();
        let mut b: Vec<u8> = Vec::new();
        if !write_operands(&mut a, self.operands().as_slice()) || !write_register(&mut b, self.destination()) {
            return None;
        }
        let t = match self.cast_type().write_le() {
            Some(t) => t,
            None => return None,
        };
        let mut out: Vec<u8> = Vec::new();
        append_bytes(&mut out, c.as_slice());
        append_bytes(&mut out, a.as_slice());
        append_bytes(&mut out, b.as_slice());
        append_bytes(&mut out, t.as_slice());
        proof {
            assert(c@ =~= Seq::<u8>::empty() + c@);
            assert(a@ =~= Seq::<u8>::empty() + a@);
            assert(b@ =~= Seq::<u8>::empty() + b@);
            assert(out@ =~= c@ + a@ + b@ + t@);
            let v = self@;
            assert forall|rest: Seq<u8>| #[trigger] spec_read_cast(v.variant, out@ + rest) == if cast_parts_ok(
                normal_cast(v).cast_type,
                normal_cast(v).operands,
                normal_cast(v).destination,
            ) {
                Some((rest.len(), normal_cast(v)))
            } else {
                None
            } by {
                lemma_cast_parts(c@, a@, b@, t@, rest);
                let r3 = t@ + rest;
                let r2 = b@ + r3;
                let r1 = a@ + r2;
                assert(spec_read_count(c@ + r1) == Some((r1.len(), n as nat)));
                assert(spec_read_operands(a@ + r2, n as nat) == Some((r2.len(), normal_operands(v.operands))));
                assert(spec_read_register(b@ + r3) == Some((r3.len(), normal_register(v.destination))));
                assert(spec_read_cast_type(t@ + rest) == Some((rest.len(), normal_cast_type(v.cast_type))));
            }
        }
        Some(out)
    }

    /// Reads a cast of the variant from the start of the bytes: the number of bytes left and
    /// the cast.
    pub fn read_le(variant: u8, b: &[u8]) -> (r: Option<(usize, CastOperation)>)
        requires
            variant < 2,
        ensures
            spec_read_cast(variant, b@) == match r {
                Some((k, c)) => Some((k as nat, c@)),
                None => None::<(nat, CastView)>,
            },
            r matches Some((k, c)) ==> k <= b@.len() && c.wf(),
    {
        let (k0, n) = match read_count(b) {
            Some(found) => found,
            None => return None,
        };
        if n == 0 || n > data_limits().max_array_elements {
            return None;
        }
        let b0 = left_of(b, k0);
        let (k1, operands) = match read_operands(b0, n) {
            Some(found) => found,
            None => return None,
        };
        let b1 = left_of(b0, k1);
        let (k2, destination) = match read_register(b1) {
            Some(found) => found,
            None => return None,
        };
        let (k3, cast_type) = match CastType::read_le(left_of(b1, k2)) {
            Some(found) => found,
            None => return None,
        };
        match CastOperation::new(variant, operands, destination, cast_type) {
            Some(c) => Some((k3, c)),
            None => None,
        }
    }
}

} // verus!
