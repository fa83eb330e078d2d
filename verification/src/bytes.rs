//! The byte encoding of operands: a tag byte that says which operand it is, then what the
//! operand holds, little-endian.
use vstd::prelude::*;

use crate::console::{
    console_identifier_bytes, console_literal, console_literal_bytes, console_program_id, console_program_id_bytes,
    console_read_identifier, console_read_literal, console_read_program_id, console_read_register, console_register,
    console_register_bytes, console_identifier,
};
use crate::operand::{
    opt_program_id_view, program_id_text, Identifier, Literal, Operand, OperandView, ProgramID, ProgramIDView, Register,
    RegisterView,
};
use crate::op_bytes::append_bytes;
use crate::text::chars_of;

verus! {

/// The four little-endian bytes of an unsigned 32-bit integer.
pub open spec fn u32_le(v: u32) -> Seq<u8> {
    seq![(v % 256) as u8, ((v / 256) % 256) as u8, ((v / 65536) % 256) as u8, (v / 16777216) as u8]
}

/// The integer of four little-endian bytes.
pub open spec fn u32_of_le(b: Seq<u8>) -> u32 {
    (b[0] + 256 * b[1] + 65536 * b[2] + 16777216 * b[3]) as u32
}

/// The bytes of an optional program ID: `0`, or `1` and the program ID's bytes.
pub open spec fn opt_program_id_bytes(p: Option<ProgramIDView>) -> Option<Seq<u8>> {
    match p {
        None => Some(seq![0u8]),
        Some(p) => match console_program_id_bytes(program_id_text(p)) {
            Some(b) => Some(seq![1u8] + b),
            None => None,
        },
    }
}

/// The tag byte, then the given bytes, if there are any.
pub open spec fn tagged(tag: u8, b: Option<Seq<u8>>) -> Option<Seq<u8>> {
    match b {
        Some(b) => Some(seq![tag] + b),
        None => None,
    }
}

/// The bytes of an operand, or `None` where console cannot write what it holds.
pub open spec fn spec_operand_bytes(op: OperandView) -> Option<Seq<u8>> {
    match op {
        OperandView::Literal(t) => tagged(0, console_literal_bytes(t)),
        OperandView::Register(r) => tagged(1, console_register_bytes(r.text)),
        OperandView::ProgramID(p) => tagged(2, console_program_id_bytes(program_id_text(p))),
        OperandView::Signer => Some(seq![3u8]),
        OperandView::Caller => Some(seq![4u8]),
        OperandView::BlockHeight => Some(seq![5u8]),
        OperandView::NetworkID => Some(seq![6u8]),
        OperandView::Checksum(p) => tagged(7, opt_program_id_bytes(p)),
        OperandView::Edition(p) => tagged(8, opt_program_id_bytes(p)),
        OperandView::ProgramOwner(p) => tagged(9, opt_program_id_bytes(p)),
        OperandView::BlockTimestamp => Some(seq![10u8]),
        OperandView::AleoGenerator => Some(seq![11u8]),
        OperandView::AleoGeneratorPowers(None) => Some(seq![12u8, 0u8]),
        OperandView::AleoGeneratorPowers(Some(i)) => Some(seq![12u8, 1u8] + u32_le(i)),
        OperandView::ComponentChecksum(p, n) => match (opt_program_id_bytes(p), console_identifier_bytes(n)) {
            (Some(a), Some(b)) => Some(seq![13u8] + a + b),
            _ => None,
        },
    }
}

/// An optional program ID read from the bytes: the number of bytes left and the program ID.
pub open spec fn spec_read_opt_program_id(b: Seq<u8>) -> Option<(nat, Option<ProgramIDView>)> {
    if b.len() == 0 {
        None
    } else if b[0] == 0 {
        Some(((b.len() - 1) as nat, None))
    } else if b[0] == 1 {
        match console_read_program_id(b.drop_first()) {
            Some((k, name, network)) => Some((k, Some(ProgramIDView { name, network }))),
            None => None,
        }
    } else {
        None
    }
}

/// An operand read from the bytes: the number of bytes left and the operand.
pub open spec fn spec_read_operand(b: Seq<u8>) -> Option<(nat, OperandView)> {
    if b.len() == 0 {
        None
    } else {
        let rest = b.drop_first();
        let left = (b.len() - 1) as nat;
        if b[0] == 0 {
            match console_read_literal(rest) {
                Some((k, t)) => Some((k, OperandView::Literal(t))),
                None => None,
            }
        } else if b[0] == 1 {
            match console_read_register(rest) {
                Some((k, locator, is_locator, text)) => Some(
                    (k, OperandView::Register(RegisterView { locator, is_locator, text })),
                ),
                None => None,
            }
        } else if b[0] == 2 {
            match console_read_program_id(rest) {
                Some((k, name, network)) => Some((k, OperandView::ProgramID(ProgramIDView { name, network }))),
                None => None,
            }
        } else if b[0] == 3 {
            Some((left, OperandView::Signer))
        } else if b[0] == 4 {
            Some((left, OperandView::Caller))
        } else if b[0] == 5 {
            Some((left, OperandView::BlockHeight))
        } else if b[0] == 6 {
            Some((left, OperandView::NetworkID))
        } else if b[0] == 7 {
            match spec_read_opt_program_id(rest) {
                Some((k, p)) => Some((k, OperandView::Checksum(p))),
                None => None,
            }
        } else if b[0] == 8 {
            match spec_read_opt_program_id(rest) {
                Some((k, p)) => Some((k, OperandView::Edition(p))),
                None => None,
            }
        } else if b[0] == 9 {
            match spec_read_opt_program_id(rest) {
                Some((k, p)) => Some((k, OperandView::ProgramOwner(p))),
                None => None,
            }
        } else if b[0] == 10 {
            Some((left, OperandView::BlockTimestamp))
        } else if b[0] == 11 {
            Some((left, OperandView::AleoGenerator))
        } else if b[0] == 12 {
            if rest.len() == 0 {
                None
            } else if rest[0] == 0 {
                Some(((rest.len() - 1) as nat, OperandView::AleoGeneratorPowers(None)))
            } else if rest[0] == 1 {
                if rest.len() < 5 {
                    None
                } else {
                    Some(
                        (
                            (rest.len() - 5) as nat,
                            OperandView::AleoGeneratorPowers(Some(u32_of_le(rest.subrange(1, 5)))),
                        ),
                    )
                }
            } else {
                None
            }
        } else if b[0] == 13 {
            match spec_read_opt_program_id(rest) {
                Some((k, p)) => {
                    let after_id = rest.subrange(rest.len() - k, rest.len() as int);
                    match console_read_identifier(after_id) {
                        Some((j, n)) => Some((j, OperandView::ComponentChecksum(p, n))),
                        None => None,
                    }
                },
                None => None,
            }
        } else {
            None
        }
    }
}

/// A program ID as console reads it back from its printed form.
pub open spec fn normal_program_id(p: ProgramIDView) -> ProgramIDView {
    let r = console_program_id(program_id_text(p))->0;
    ProgramIDView { name: r.1, network: r.2 }
}

/// An optional program ID as console reads it back from its printed form.
pub open spec fn normal_opt_program_id(p: Option<ProgramIDView>) -> Option<ProgramIDView> {
    match p {
        Some(p) => Some(normal_program_id(p)),
        None => None,
    }
}

/// The operand as console reads back what it holds from the printed forms: the literal,
/// register, program IDs and name as console prints them after reading them.
pub open spec fn normal_operand(op: OperandView) -> OperandView {
    match op {
        OperandView::Literal(t) => OperandView::Literal((console_literal(t)->0).1),
        OperandView::Register(r) => {
            let x = console_register(r.text)->0;
            OperandView::Register(RegisterView { locator: x.1, is_locator: x.2, text: x.3 })
        },
        OperandView::ProgramID(p) => OperandView::ProgramID(normal_program_id(p)),
        OperandView::Checksum(p) => OperandView::Checksum(normal_opt_program_id(p)),
        OperandView::Edition(p) => OperandView::Edition(normal_opt_program_id(p)),
        OperandView::ProgramOwner(p) => OperandView::ProgramOwner(normal_opt_program_id(p)),
        OperandView::ComponentChecksum(p, n) => OperandView::ComponentChecksum(
            normal_opt_program_id(p),
            (console_identifier(n)->0).1,
        ),
        _ => op,
    }
}

fn push_u32_le(out: &mut Vec<u8>, v: u32)
    ensures
        final(out)@ == old(out)@ + u32_le(v),
{
    out.push((v % 256) as u8);
    out.push(((v / 256) % 256) as u8);
    out.push(((v / 65536) % 256) as u8);
    out.push((v / 16777216) as u8);
    assert(final(out)@ =~= old(out)@ + u32_le(v));
}

fn read_u32_le(b: &[u8]) -> (r: u32)
    requires
        b@.len() >= 4,
    ensures
        r == u32_of_le(b@),
{
    let v: u64 = b[0] as u64 + 256 * (b[1] as u64) + 65536 * (b[2] as u64) + 16777216 * (b[3] as u64);
    assert(v < 4294967296) by (nonlinear_arith)
        requires
            v == b[0] as u64 + 256 * (b[1] as u64) + 65536 * (b[2] as u64) + 16777216 * (b[3] as u64),
            b[0] < 256,
            b[1] < 256,
            b[2] < 256,
            b[3] < 256,
    ;
    v as u32
}

fn program_id_chars(p: &ProgramID) -> (r: Vec<char>)
    ensures
        r@ == program_id_text(p@),
{
    let mut out: Vec<char> = Vec::new();
    crate::operand::write_program_id(&mut out, p);
    assert(out@ =~= program_id_text(p@));
    out
}

fn write_opt_program_id(out: &mut Vec<u8>, p: &Option<ProgramID>) -> (ok: bool)
    ensures
        ok == opt_program_id_bytes(opt_program_id_view(*p)) is Some,
        ok ==> final(out)@ == old(out)@ + opt_program_id_bytes(opt_program_id_view(*p))->0,
        ok ==> forall|rest: Seq<u8>|
            #[trigger] spec_read_opt_program_id(opt_program_id_bytes(opt_program_id_view(*p))->0 + rest)
                == Some((rest.len(), normal_opt_program_id(opt_program_id_view(*p)))),
{
    match p {
        None => {
            out.push(0u8);
            assert(final(out)@ =~= old(out)@ + seq![0u8]);
            assert forall|rest: Seq<u8>| #[trigger] spec_read_opt_program_id(seq![0u8] + rest) == Some(
                (rest.len(), None::<ProgramIDView>),
            ) by {
                assert((seq![0u8] + rest)[0] == 0);
            }
            true
        },
        Some(p) => match crate::console::program_id_bytes(&program_id_chars(p)) {
            Some(b) => {
                out.push(1u8);
                append_bytes(out, b.as_slice());
                assert(final(out)@ =~= old(out)@ + (seq![1u8] + b@));
                assert forall|rest: Seq<u8>| #[trigger] spec_read_opt_program_id((seq![1u8] + b@) + rest)
                    == Some((rest.len(), Some(normal_program_id(p@)))) by {
                    assert(((seq![1u8] + b@) + rest)[0] == 1);
                    assert(((seq![1u8] + b@) + rest).drop_first() =~= b@ + rest);
                }
                true
            },
            None => false,
        },
    }
}

impl Operand {
    /// Writes the operand as bytes: `None` where console cannot write what it holds (a
    /// literal, register, program ID or name that console would not read from its text).
    pub fn write_le(&self) -> (r: Option<Vec<u8>>)
        ensures
            spec_operand_bytes(self@) == match r {
                Some(b) => Some(b@),
                None => None::<Seq<u8>>,
            },
            r matches Some(b) ==> forall|rest: Seq<u8>|
                #[trigger] spec_read_operand(b@ + rest) == Some((rest.len(), normal_operand(self@))),
    {
        let mut out: Vec<u8> = Vec::new();
        match self {
            Operand::Literal(l) => match crate::console::literal_bytes(&chars_of(l.text.as_str())) {
                Some(b) => {
                    out.push(0u8);
                    append_bytes(&mut out, b.as_slice());
                    assert forall|rest: Seq<u8>| #[trigger] spec_read_operand(out@ + rest) == Some(
                        (rest.len(), normal_operand(self@)),
                    ) by {
                        lemma_tag(0, b@, rest);
                        assert(out@ =~= seq![0u8] + b@);
                    }
                },
                None => return None,
            },
            Operand::Register(r) => match crate::console::register_bytes(&chars_of(r.text.as_str())) {
                Some(b) => {
                    out.push(1u8);
                    append_bytes(&mut out, b.as_slice());
                    assert forall|rest: Seq<u8>| #[trigger] spec_read_operand(out@ + rest) == Some(
                        (rest.len(), normal_operand(self@)),
                    ) by {
                        lemma_tag(1, b@, rest);
                        assert(out@ =~= seq![1u8] + b@);
                    }
                },
                None => return None,
            },
            Operand::ProgramID(p) => match crate::console::program_id_bytes(&program_id_chars(p)) {
                Some(b) => {
                    out.push(2u8);
                    append_bytes(&mut out, b.as_slice());
                    assert forall|rest: Seq<u8>| #[trigger] spec_read_operand(out@ + rest) == Some(
                        (rest.len(), normal_operand(self@)),
                    ) by {
                        lemma_tag(2, b@, rest);
                        assert(out@ =~= seq![2u8] + b@);
                    }
                },
                None => return None,
            },
            Operand::Signer => out.push(3u8),
            Operand::Caller => out.push(4u8),
            Operand::BlockHeight => out.push(5u8),
            Operand::NetworkID => out.push(6u8),
            Operand::Checksum(p) => {
                out.push(7u8);
                if !write_opt_program_id(&mut out, p) {
                    return None;
                }
                proof {
                    lemma_tag_opt(7, opt_program_id_view(*p), out@);
                }
            },
            Operand::Edition(p) => {
                out.push(8u8);
                if !write_opt_program_id(&mut out, p) {
                    return None;
                }
                proof {
                    lemma_tag_opt(8, opt_program_id_view(*p), out@);
                }
            },
            Operand::ProgramOwner(p) => {
                out.push(9u8);
                if !write_opt_program_id(&mut out, p) {
                    return None;
                }
                proof {
                    lemma_tag_opt(9, opt_program_id_view(*p), out@);
                }
            },
            Operand::BlockTimestamp => out.push(10u8),
            Operand::AleoGenerator => out.push(11u8),
            Operand::AleoGeneratorPowers(index) => {
                out.push(12u8);
                match index {
                    Some(i) => {
                        out.push(1u8);
                        push_u32_le(&mut out, *i);
                        proof {
                            lemma_u32_le(*i);
                        }
                        assert forall|rest: Seq<u8>| #[trigger] spec_read_operand(out@ + rest) == Some(
                            (rest.len(), normal_operand(self@)),
                        ) by {
                            let w = out@ + rest;
                            assert(w[0] == 12u8);
                            assert(w.drop_first()[0] == 1u8);
                            assert(w.drop_first().subrange(1, 5) =~= u32_le(*i));
                        }
                    },
                    None => out.push(0u8),
                }
            },
            Operand::ComponentChecksum(p, n) => {
                out.push(13u8);
                if !write_opt_program_id(&mut out, p) {
                    return None;
                }
                let ghost a = opt_program_id_bytes(opt_program_id_view(*p))->0;
                match crate::console::identifier_bytes(&chars_of(n.name.as_str())) {
                    Some(b) => {
                        append_bytes(&mut out, b.as_slice());
                        assert forall|rest: Seq<u8>| #[trigger] spec_read_operand(out@ + rest) == Some(
                            (rest.len(), normal_operand(self@)),
                        ) by {
                            assert(out@ =~= seq![13u8] + (a + b@));
                            lemma_tag(13, a + b@, rest);
                            assert((a + b@) + rest =~= a + (b@ + rest));
                            let r1 = (a + b@) + rest;
                            let k = (b@ + rest).len();
                            assert(spec_read_opt_program_id(a + (b@ + rest)) == Some(
                                (k, normal_opt_program_id(opt_program_id_view(*p))),
                            ));
                            assert(r1.subrange(r1.len() - k, r1.len() as int) =~= b@ + rest);
                        }
                    },
                    None => return None,
                }
            },
        }
        assert(spec_operand_bytes(self@) == Some(out@));
        assert forall|rest: Seq<u8>| #[trigger] spec_read_operand(out@ + rest) == Some(
            (rest.len(), normal_operand(self@)),
        ) by {
            match self@ {
                OperandView::Signer | OperandView::Caller | OperandView::BlockHeight | OperandView::NetworkID
                | OperandView::BlockTimestamp | OperandView::AleoGenerator => {
                    assert((out@ + rest).drop_first() =~= rest);
                },
                OperandView::AleoGeneratorPowers(None) => {
                    assert((out@ + rest).drop_first()[0] == 0u8);
                    assert((out@ + rest).drop_first().len() == rest.len() + 1);
                },
                _ => {},
            }
        }
        Some(out)
    }
}

pub(crate) proof fn lemma_tag(t: u8, b: Seq<u8>, rest: Seq<u8>)
    ensures
        ((seq![t] + b) + rest)[0] == t,
        ((seq![t] + b) + rest).drop_first() == b + rest,
        ((seq![t] + b) + rest).len() == b.len() + rest.len() + 1,
{
    assert(((seq![t] + b) + rest).drop_first() =~= b + rest);
}

proof fn lemma_tag_opt(t: u8, p: Option<ProgramIDView>, out: Seq<u8>)
    requires
        opt_program_id_bytes(p) is Some,
        out == seq![t] + opt_program_id_bytes(p)->0,
        forall|rest: Seq<u8>|
            #[trigger] spec_read_opt_program_id(opt_program_id_bytes(p)->0 + rest) == Some(
                (rest.len(), normal_opt_program_id(p)),
            ),
    ensures
        forall|rest: Seq<u8>|
            #[trigger] spec_read_operand(out + rest) == if t == 7 {
                Some((rest.len(), OperandView::Checksum(normal_opt_program_id(p))))
            } else if t == 8 {
                Some((rest.len(), OperandView::Edition(normal_opt_program_id(p))))
            } else if t == 9 {
                Some((rest.len(), OperandView::ProgramOwner(normal_opt_program_id(p))))
            } else {
                spec_read_operand(out + rest)
            },
{
    assert forall|rest: Seq<u8>| #[trigger] spec_read_operand(out + rest) == if t == 7 {
        Some((rest.len(), OperandView::Checksum(normal_opt_program_id(p))))
    } else if t == 8 {
        Some((rest.len(), OperandView::Edition(normal_opt_program_id(p))))
    } else if t == 9 {
        Some((rest.len(), OperandView::ProgramOwner(normal_opt_program_id(p))))
    } else {
        spec_read_operand(out + rest)
    } by {
        lemma_tag(t, opt_program_id_bytes(p)->0, rest);
    }
}

proof fn lemma_u32_le(v: u32)
    ensures
        u32_of_le(u32_le(v)) == v,
{
    let b = u32_le(v);
    assert(b[0] + 256 * b[1] + 65536 * b[2] + 16777216 * b[3] == v) by (nonlinear_arith)
        requires
            b[0] == v % 256,
            b[1] == (v / 256) % 256,
            b[2] == (v / 65536) % 256,
            b[3] == v / 16777216,
            v < 4294967296,
    ;
}

fn read_opt_program_id(b: &[u8]) -> (r: Option<(usize, Option<ProgramID>)>)
    ensures
        spec_read_opt_program_id(b@) == match r {
            Some((k, p)) => Some((k as nat, opt_program_id_view(p))),
            None => None::<(nat, Option<ProgramIDView>)>,
        },
        r matches Some((k, _)) ==> k <= b@.len(),
{
    if b.len() == 0 {
        return None;
    }
    if b[0] == 0 {
        return Some((b.len() - 1, None));
    }
    if b[0] == 1 {
        let rest = &b[1..b.len()];
        assert(rest@ =~= b@.drop_first());
        return match crate::console::read_program_id(rest) {
            Some((k, name, network)) => Some((k, Some(ProgramID { name, network }))),
            None => None,
        };
    }
    None
}

impl Operand {
    /// Reads an operand from the start of the bytes: the number of bytes left and the
    /// operand.
    pub fn read_le(b: &[u8]) -> (r: Option<(usize, Operand)>)
        ensures
            spec_read_operand(b@) == match r {
                Some((k, op)) => Some((k as nat, op@)),
                None => None::<(nat, OperandView)>,
            },
            r matches Some((k, _)) ==> k < b@.len(),
    {
        if b.len() == 0 {
            return None;
        }
        let rest = &b[1..b.len()];
        assert(rest@ =~= b@.drop_first());
        let left = b.len() - 1;
        let tag = b[0];
        if tag == 0 {
            match crate::console::read_literal(rest) {
                Some((k, text)) => Some((k, Operand::Literal(Literal { text }))),
                None => None,
            }
        } else if tag == 1 {
            match crate::console::read_register(rest) {
                Some((k, locator, is_locator, text)) => Some(
                    (k, Operand::Register(Register { locator, is_locator, text })),
                ),
                None => None,
            }
        } else if tag == 2 {
            match crate::console::read_program_id(rest) {
                Some((k, name, network)) => Some((k, Operand::ProgramID(ProgramID { name, network }))),
                None => None,
            }
        } else if tag == 3 {
            Some((left, Operand::Signer))
        } else if tag == 4 {
            Some((left, Operand::Caller))
        } else if tag == 5 {
            Some((left, Operand::BlockHeight))
        } else if tag == 6 {
            Some((left, Operand::NetworkID))
        } else if tag == 7 {
            match read_opt_program_id(rest) {
                Some((k, p)) => Some((k, Operand::Checksum(p))),
                None => None,
            }
        } else if tag == 8 {
            match read_opt_program_id(rest) {
                Some((k, p)) => Some((k, Operand::Edition(p))),
                None => None,
            }
        } else if tag == 9 {
            match read_opt_program_id(rest) {
                Some((k, p)) => Some((k, Operand::ProgramOwner(p))),
                None => None,
            }
        } else if tag == 10 {
            Some((left, Operand::BlockTimestamp))
        } else if tag == 11 {
            Some((left, Operand::AleoGenerator))
        } else if tag == 12 {
            if rest.len() == 0 {
                None
            } else if rest[0] == 0 {
                Some((rest.len() - 1, Operand::AleoGeneratorPowers(None)))
            } else if rest[0] == 1 {
                if rest.len() < 5 {
                    None
                } else {
                    let digits = &rest[1..5];
                    assert(digits@ =~= rest@.subrange(1, 5));
                    let v = read_u32_le(digits);
                    Some((rest.len() - 5, Operand::AleoGeneratorPowers(Some(v))))
                }
            } else {
                None
            }
        } else if tag == 13 {
            match read_opt_program_id(rest) {
                Some((k, p)) => {
                    let after_id = &rest[rest.len() - k..rest.len()];
                    match crate::console::read_identifier(after_id) {
                        Some((j, name)) => Some((j, Operand::ComponentChecksum(p, Identifier { name }))),
                        None => None,
                    }
                },
                None => None,
            }
        } else {
            None
        }
    }
}

} // verus!
