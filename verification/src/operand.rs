//! Operands of instructions and commands: literals, registers, program IDs and the special
//! operands of the program, block and network context.
use vstd::prelude::*;

use crate::console::{
    console_generator, console_identifier, console_literal, console_program_id, console_register, console_u32,
};
use crate::text::{
    chars_of, decimal, has_prefix, push_all, push_decimal, same_text, starts_with, string_of, suffix,
};

verus! {

/// The last `k` characters of `s`.
pub open spec fn tail(s: Seq<char>, k: nat) -> Seq<char> {
    s.subrange(s.len() - k, s.len() as int)
}

/// An identifier, held as its text.
#[derive(Clone, Debug, PartialEq, Eq)]
pub struct Identifier {
    pub name: String,
}

impl View for Identifier {
    type V = Seq<char>;

    open spec fn view(&self) -> Seq<char> {
        self.name@
    }
}

/// A program ID `{name}.{network}`, held as the texts of its two identifiers.
#[derive(Clone, Debug, PartialEq, Eq)]
pub struct ProgramID {
    pub name: String,
    pub network: String,
}

/// The mathematical value of a program ID.
pub ghost struct ProgramIDView {
    pub name: Seq<char>,
    pub network: Seq<char>,
}

impl View for ProgramID {
    type V = ProgramIDView;

    open spec fn view(&self) -> ProgramIDView {
        ProgramIDView { name: self.name@, network: self.network@ }
    }
}

/// The printed program ID.
pub open spec fn program_id_text(p: ProgramIDView) -> Seq<char> {
    p.name + "."@ + p.network
}

/// The view of an optional program ID.
pub open spec fn opt_program_id_view(p: Option<ProgramID>) -> Option<ProgramIDView> {
    match p {
        Some(p) => Some(p@),
        None => None,
    }
}

/// A register: its locator, whether it is a plain locator (`r3`) rather than an access into
/// one (`r3.owner`, `r3[0u32]`), and its printed form.
#[derive(Clone, Debug, PartialEq, Eq)]
pub struct Register {
    pub locator: u64,
    pub is_locator: bool,
    pub text: String,
}

/// The mathematical value of a register.
pub ghost struct RegisterView {
    pub locator: u64,
    pub is_locator: bool,
    pub text: Seq<char>,
}

impl View for Register {
    type V = RegisterView;

    open spec fn view(&self) -> RegisterView {
        RegisterView { locator: self.locator, is_locator: self.is_locator, text: self.text@ }
    }
}

impl Register {
    /// Returns a copy of the register.
    pub fn copy(&self) -> (r: Register)
        ensures
            r@ == self@,
    {
        Register { locator: self.locator, is_locator: self.is_locator, text: self.text.clone() }
    }
}

impl ProgramID {
    /// Returns a copy of the program ID.
    pub fn copy(&self) -> (r: ProgramID)
        ensures
            r@ == self@,
    {
        ProgramID { name: self.name.clone(), network: self.network.clone() }
    }
}

/// A copy of an optional program ID.
fn copy_opt_id(p: &Option<ProgramID>) -> (r: Option<ProgramID>)
    ensures
        opt_program_id_view(r) == opt_program_id_view(*p),
{
    match p {
        Some(p) => Some(p.copy()),
        None => None,
    }
}

/// A literal, held as its printed form.
#[derive(Clone, Debug, PartialEq, Eq)]
pub struct Literal {
    pub text: String,
}

/// An operand.
#[derive(Clone, Debug, PartialEq, Eq)]
pub enum Operand {
    /// A literal, such as `10field`.
    Literal(Literal),
    /// A register, such as `r0` or `r0.owner`.
    Register(Register),
    /// A program ID, such as `howard.aleo`.
    ProgramID(ProgramID),
    /// `self.signer`.
    Signer,
    /// `self.caller`.
    Caller,
    /// `block.height`.
    BlockHeight,
    /// `block.timestamp`.
    BlockTimestamp,
    /// `network.id`.
    NetworkID,
    /// `aleo::GENERATOR`.
    AleoGenerator,
    /// `aleo::GENERATOR_POWERS`, optionally indexed (`aleo::GENERATOR_POWERS[5u32]`).
    AleoGeneratorPowers(Option<u32>),
    /// `checksum` or `{program_id}/checksum`.
    Checksum(Option<ProgramID>),
    /// `edition` or `{program_id}/edition`.
    Edition(Option<ProgramID>),
    /// `program_owner` or `{program_id}/program_owner`.
    ProgramOwner(Option<ProgramID>),
    /// `{name}/checksum` or `{program_id}/{name}/checksum`.
    ComponentChecksum(Option<ProgramID>, Identifier),
}

/// The mathematical value of an operand.
pub ghost enum OperandView {
    Literal(Seq<char>),
    Register(RegisterView),
    ProgramID(ProgramIDView),
    Signer,
    Caller,
    BlockHeight,
    BlockTimestamp,
    NetworkID,
    AleoGenerator,
    AleoGeneratorPowers(Option<u32>),
    Checksum(Option<ProgramIDView>),
    Edition(Option<ProgramIDView>),
    ProgramOwner(Option<ProgramIDView>),
    ComponentChecksum(Option<ProgramIDView>, Seq<char>),
}

impl View for Operand {
    type V = OperandView;

    open spec fn view(&self) -> OperandView {
        match self {
            Operand::Literal(l) => OperandView::Literal(l.text@),
            Operand::Register(r) => OperandView::Register(r@),
            Operand::ProgramID(p) => OperandView::ProgramID(p@),
            Operand::Signer => OperandView::Signer,
            Operand::Caller => OperandView::Caller,
            Operand::BlockHeight => OperandView::BlockHeight,
            Operand::BlockTimestamp => OperandView::BlockTimestamp,
            Operand::NetworkID => OperandView::NetworkID,
            Operand::AleoGenerator => OperandView::AleoGenerator,
            Operand::AleoGeneratorPowers(i) => OperandView::AleoGeneratorPowers(*i),
            Operand::Checksum(p) => OperandView::Checksum(opt_program_id_view(*p)),
            Operand::Edition(p) => OperandView::Edition(opt_program_id_view(*p)),
            Operand::ProgramOwner(p) => OperandView::ProgramOwner(opt_program_id_view(*p)),
            Operand::ComponentChecksum(p, n) => OperandView::ComponentChecksum(
                opt_program_id_view(*p),
                n@,
            ),
        }
    }
}

impl Operand {
    /// Returns a copy of the operand.
    pub fn copy(&self) -> (r: Operand)
        ensures
            r@ == self@,
    {
        match self {
            Operand::Literal(l) => Operand::Literal(Literal { text: l.text.clone() }),
            Operand::Register(r) => Operand::Register(r.copy()),
            Operand::ProgramID(p) => Operand::ProgramID(p.copy()),
            Operand::Signer => Operand::Signer,
            Operand::Caller => Operand::Caller,
            Operand::BlockHeight => Operand::BlockHeight,
            Operand::BlockTimestamp => Operand::BlockTimestamp,
            Operand::NetworkID => Operand::NetworkID,
            Operand::AleoGenerator => Operand::AleoGenerator,
            Operand::AleoGeneratorPowers(i) => Operand::AleoGeneratorPowers(*i),
            Operand::Checksum(p) => Operand::Checksum(copy_opt_id(p)),
            Operand::Edition(p) => Operand::Edition(copy_opt_id(p)),
            Operand::ProgramOwner(p) => Operand::ProgramOwner(copy_opt_id(p)),
            Operand::ComponentChecksum(p, n) => Operand::ComponentChecksum(
                copy_opt_id(p),
                Identifier { name: n.name.clone() },
            ),
        }
    }
}

/// An optional `{program_id}/` prefix, as `opt(terminated(ProgramID::parse, tag("/")))` reads
/// it: the length of the rest and the program ID, or the whole text and `None`.
pub open spec fn spec_opt_program_id_slash(s: Seq<char>) -> (nat, Option<ProgramIDView>) {
    match console_program_id(s) {
        Some((k, name, network)) => if starts_with(tail(s, k), "/"@) {
            ((k - 1) as nat, Some(ProgramIDView { name, network }))
        } else {
            (s.len(), None)
        },
        None => (s.len(), None),
    }
}

/// A keyword, optionally preceded by `{program_id}/`.
pub open spec fn spec_keyword_with_program_id(s: Seq<char>, keyword: Seq<char>) -> Option<
    (nat, Option<ProgramIDView>),
> {
    let (k, p) = spec_opt_program_id_slash(s);
    let t = tail(s, k);
    if starts_with(t, keyword) {
        Some(((t.len() - keyword.len()) as nat, p))
    } else {
        None
    }
}

/// `{name}/checksum`, optionally preceded by `{program_id}/`.
pub open spec fn spec_component_checksum(s: Seq<char>) -> Option<(nat, OperandView)> {
    let (k, p) = spec_opt_program_id_slash(s);
    let t = tail(s, k);
    match console_identifier(t) {
        Some((j, name)) => {
            let u = tail(t, j);
            if starts_with(u, "/"@) && starts_with(tail(u, (u.len() - 1) as nat), "checksum"@) {
                Some(
                    (
                        (u.len() - 1 - "checksum"@.len()) as nat,
                        OperandView::ComponentChecksum(p, name),
                    ),
                )
            } else {
                None
            }
        },
        None => None,
    }
}

/// The optional `[{u32}]` index of `aleo::GENERATOR_POWERS`.
pub open spec fn spec_bracketed_u32(t: Seq<char>) -> Option<(nat, u32)> {
    if starts_with(t, "["@) {
        match console_u32(tail(t, (t.len() - 1) as nat)) {
            Some((k, v)) => if starts_with(tail(t, k), "]"@) {
                Some(((k - 1) as nat, v))
            } else {
                None
            },
            None => None,
        }
    } else {
        None
    }
}

/// What the operand parser reads from the start of the text: the length of the rest and the
/// operand. The alternatives are tried in order, the first that succeeds wins.
pub open spec fn spec_parse_operand(s: Seq<char>) -> Option<(nat, OperandView)> {
    if starts_with(s, "group::GEN"@) {
        match console_generator("group"@) {
            Some(t) => Some(((s.len() - "group::GEN"@.len()) as nat, OperandView::Literal(t))),
            None => None,
        }
    } else if starts_with(s, "self.signer"@) {
        Some(((s.len() - "self.signer"@.len()) as nat, OperandView::Signer))
    } else if starts_with(s, "self.caller"@) {
        Some(((s.len() - "self.caller"@.len()) as nat, OperandView::Caller))
    } else if starts_with(s, "block.height"@) {
        Some(((s.len() - "block.height"@.len()) as nat, OperandView::BlockHeight))
    } else if starts_with(s, "block.timestamp"@) {
        Some(((s.len() - "block.timestamp"@.len()) as nat, OperandView::BlockTimestamp))
    } else if starts_with(s, "network.id"@) {
        Some(((s.len() - "network.id"@.len()) as nat, OperandView::NetworkID))
    } else if starts_with(s, "aleo::GENERATOR_POWERS"@) {
        let t = tail(s, (s.len() - "aleo::GENERATOR_POWERS"@.len()) as nat);
        match spec_bracketed_u32(t) {
            Some((k, v)) => Some((k, OperandView::AleoGeneratorPowers(Some(v)))),
            None => Some((t.len(), OperandView::AleoGeneratorPowers(None))),
        }
    } else if starts_with(s, "aleo::GENERATOR"@) {
        Some(((s.len() - "aleo::GENERATOR"@.len()) as nat, OperandView::AleoGenerator))
    } else if spec_component_checksum(s) is Some {
        spec_component_checksum(s)
    } else if spec_keyword_with_program_id(s, "checksum"@) is Some {
        let (k, p) = spec_keyword_with_program_id(s, "checksum"@)->0;
        Some((k, OperandView::Checksum(p)))
    } else if spec_keyword_with_program_id(s, "edition"@) is Some {
        let (k, p) = spec_keyword_with_program_id(s, "edition"@)->0;
        Some((k, OperandView::Edition(p)))
    } else if spec_keyword_with_program_id(s, "program_owner"@) is Some {
        let (k, p) = spec_keyword_with_program_id(s, "program_owner"@)->0;
        Some((k, OperandView::ProgramOwner(p)))
    } else if console_program_id(s) is Some {
        let (k, name, network) = console_program_id(s)->0;
        Some((k, OperandView::ProgramID(ProgramIDView { name, network })))
    } else if console_literal(s) is Some {
        let (k, text) = console_literal(s)->0;
        Some((k, OperandView::Literal(text)))
    } else if console_register(s) is Some {
        let (k, locator, is_locator, text) = console_register(s)->0;
        Some((k, OperandView::Register(RegisterView { locator, is_locator, text })))
    } else {
        None
    }
}

/// The view of a parse result.
pub open spec fn parsed_view(r: Option<(usize, Operand)>) -> Option<(nat, OperandView)> {
    match r {
        Some((k, op)) => Some((k as nat, op@)),
        None => None,
    }
}

/// The printed `{program_id}/` prefix of an operand, if there is a program ID.
pub open spec fn opt_program_id_prefix(p: Option<ProgramIDView>) -> Seq<char> {
    match p {
        Some(p) => program_id_text(p) + "/"@,
        None => Seq::<char>::empty(),
    }
}

/// The printed operand.
pub open spec fn spec_operand_text(op: OperandView) -> Seq<char> {
    match op {
        OperandView::Literal(t) => t,
        OperandView::Register(r) => r.text,
        OperandView::ProgramID(p) => program_id_text(p),
        OperandView::Signer => "self.signer"@,
        OperandView::Caller => "self.caller"@,
        OperandView::BlockHeight => "block.height"@,
        OperandView::BlockTimestamp => "block.timestamp"@,
        OperandView::NetworkID => "network.id"@,
        OperandView::AleoGenerator => "aleo::GENERATOR"@,
        OperandView::AleoGeneratorPowers(None) => "aleo::GENERATOR_POWERS"@,
        OperandView::AleoGeneratorPowers(Some(i)) => "aleo::GENERATOR_POWERS["@ + decimal(
            i as nat,
        ) + "u32]"@,
        OperandView::Checksum(p) => opt_program_id_prefix(p) + "checksum"@,
        OperandView::Edition(p) => opt_program_id_prefix(p) + "edition"@,
        OperandView::ProgramOwner(p) => opt_program_id_prefix(p) + "program_owner"@,
        OperandView::ComponentChecksum(p, n) => opt_program_id_prefix(p) + n + "/checksum"@,
    }
}

/// Why a text is not an operand.
#[derive(Clone, Debug, PartialEq, Eq)]
pub enum ParseError {
    /// No operand starts the text.
    Rejected,
    /// An operand starts the text, but characters follow it.
    Trailing(String),
}

/// The `{program_id}/` prefix of the text, given what console's `ProgramID::parse` read from it.
fn opt_program_id_slash(s: &[char], pid: &Option<(usize, String, String)>) -> (r: (usize, Option<ProgramID>))
    requires
        pid is Some <==> console_program_id(s@) is Some,
        pid matches Some((k, name, network)) ==> console_program_id(s@) == Some((k as nat, name@, network@))
            && k <= s@.len(),
    ensures
        r.0 <= s@.len(),
        spec_opt_program_id_slash(s@) == (r.0 as nat, opt_program_id_view(r.1)),
{
    match pid {
        Some((k, name, network)) => {
            let k = *k;
            let t = suffix(s, s.len() - k);
            let slash = chars_of("/");
            if has_prefix(t, &slash) {
                proof {
                    assert(slash@.len() == 1) by {
                        reveal_strlit("/");
                    }
                }
                assert(k >= 1);
                (k - 1, Some(ProgramID { name: name.clone(), network: network.clone() }))
            } else {
                (s.len(), None)
            }
        },
        None => (s.len(), None),
    }
}

fn keyword_with_program_id(s: &[char], keyword: &[char], pre: &(usize, Option<ProgramID>)) -> (r: Option<
    (usize, Option<ProgramID>),
>)
    requires
        pre.0 <= s@.len(),
        spec_opt_program_id_slash(s@) == (pre.0 as nat, opt_program_id_view(pre.1)),
    ensures
        spec_keyword_with_program_id(s@, keyword@) == match r {
            Some((k, p)) => Some((k as nat, opt_program_id_view(p))),
            None => None,
        },
        r matches Some((k, _)) ==> k <= s@.len(),
{
    let k = pre.0;
    let t = suffix(s, s.len() - k);
    if has_prefix(t, keyword) {
        Some((t.len() - keyword.len(), copy_opt_id(&pre.1)))
    } else {
        None
    }
}

fn component_checksum(s: &[char], pre: &(usize, Option<ProgramID>)) -> (r: Option<(usize, Operand)>)
    requires
        pre.0 <= s@.len(),
        spec_opt_program_id_slash(s@) == (pre.0 as nat, opt_program_id_view(pre.1)),
    ensures
        spec_component_checksum(s@) == parsed_view(r),
        r matches Some((k, _)) ==> k <= s@.len(),
{
    let k = pre.0;
    let p = copy_opt_id(&pre.1);
    let t = suffix(s, s.len() - k);
    match crate::console::identifier(t) {
        Some((j, name)) => {
            let u = suffix(t, t.len() - j);
            let slash = chars_of("/");
            let word = chars_of("checksum");
            proof {
                assert(slash@.len() == 1) by {
                    reveal_strlit("/");
                }
            }
            if has_prefix(u, &slash) {
                let w = suffix(u, 1);
                if has_prefix(w, &word) {
                    assert(tail(u@, (u@.len() - 1) as nat) =~= w@);
                    return Some((w.len() - word.len(), Operand::ComponentChecksum(p, Identifier { name })));
                }
                assert(tail(u@, (u@.len() - 1) as nat) =~= w@);
            }
            None
        },
        None => None,
    }
}

fn bracketed_u32(t: &[char]) -> (r: Option<(usize, u32)>)
    ensures
        spec_bracketed_u32(t@) == match r {
            Some((k, v)) => Some((k as nat, v)),
            None => None,
        },
        r matches Some((k, _)) ==> k <= t@.len(),
{
    let open = chars_of("[");
    let close = chars_of("]");
    proof {
        assert(open@.len() == 1) by {
            reveal_strlit("[");
        }
        assert(close@.len() == 1) by {
            reveal_strlit("]");
        }
    }
    if !has_prefix(t, &open) {
        return None;
    }
    let w = suffix(t, 1);
    assert(tail(t@, (t@.len() - 1) as nat) =~= w@);
    match crate::console::u32_literal(w) {
        Some((k, v)) => {
            let u = suffix(w, w.len() - k);
            assert(tail(t@, k as nat) =~= u@);
            if has_prefix(u, &close) {
                Some((k - 1, v))
            } else {
                None
            }
        },
        None => None,
    }
}

/// Parses an operand from the start of the characters: the length of the rest and the operand.
pub fn parse_operand(s: &[char]) -> (r: Option<(usize, Operand)>)
    ensures
        parsed_view(r) == spec_parse_operand(s@),
        r matches Some((k, _)) ==> k <= s@.len(),
{
    let p = chars_of("group::GEN");
    if has_prefix(s, &p) {
        return match crate::console::generator(&chars_of("group")) {
            Some(text) => Some((s.len() - p.len(), Operand::Literal(Literal { text }))),
            None => None,
        };
    }
    let p = chars_of("self.signer");
    if has_prefix(s, &p) {
        return Some((s.len() - p.len(), Operand::Signer));
    }
    let p = chars_of("self.caller");
    if has_prefix(s, &p) {
        return Some((s.len() - p.len(), Operand::Caller));
    }
    let p = chars_of("block.height");
    if has_prefix(s, &p) {
        return Some((s.len() - p.len(), Operand::BlockHeight));
    }
    let p = chars_of("block.timestamp");
    if has_prefix(s, &p) {
        return Some((s.len() - p.len(), Operand::BlockTimestamp));
    }
    let p = chars_of("network.id");
    if has_prefix(s, &p) {
        return Some((s.len() - p.len(), Operand::NetworkID));
    }
    let p = chars_of("aleo::GENERATOR_POWERS");
    if has_prefix(s, &p) {
        let t = suffix(s, p.len());
        assert(t@ =~= tail(s@, (s@.len() - p@.len()) as nat));
        return match bracketed_u32(t) {
            Some((k, v)) => Some((k, Operand::AleoGeneratorPowers(Some(v)))),
            None => Some((t.len(), Operand::AleoGeneratorPowers(None))),
        };
    }
    let p = chars_of("aleo::GENERATOR");
    if has_prefix(s, &p) {
        return Some((s.len() - p.len(), Operand::AleoGenerator));
    }
    let pid = crate::console::program_id(s);
    let pre = opt_program_id_slash(s, &pid);
    if let Some(found) = component_checksum(s, &pre) {
        return Some(found);
    }
    let p = chars_of("checksum");
    if let Some((k, id)) = keyword_with_program_id(s, &p, &pre) {
        return Some((k, Operand::Checksum(id)));
    }
    let p = chars_of("edition");
    if let Some((k, id)) = keyword_with_program_id(s, &p, &pre) {
        return Some((k, Operand::Edition(id)));
    }
    let p = chars_of("program_owner");
    if let Some((k, id)) = keyword_with_program_id(s, &p, &pre) {
        return Some((k, Operand::ProgramOwner(id)));
    }
    if let Some((k, name, network)) = pid {
        return Some((k, Operand::ProgramID(ProgramID { name, network })));
    }
    if let Some((k, text)) = crate::console::literal(s) {
        return Some((k, Operand::Literal(Literal { text })));
    }
    if let Some((k, locator, is_locator, text)) = crate::console::register(s) {
        return Some((k, Operand::Register(Register { locator, is_locator, text })));
    }
    None
}

impl Operand {
    /// Parses an operand from the start of the string, returning the rest of the string and
    /// the operand.
    pub fn parse(string: &str) -> (r: Result<(String, Operand), ParseError>)
        ensures
            match spec_parse_operand(string@) {
                Some((k, op)) => r matches Ok((rest, o)) && rest@ == tail(string@, k) && o@ == op,
                None => r is Err,
            },
    {
        let s = chars_of(string);
        match parse_operand(&s) {
            Some((k, op)) => {
                let rest = suffix(&s, s.len() - k);
                Ok((string_of(rest), op))
            },
            None => Err(ParseError::Rejected),
        }
    }

    /// Parses a string that holds exactly one operand.
    pub fn from_str(string: &str) -> (r: Result<Operand, ParseError>)
        ensures
            match spec_parse_operand(string@) {
                Some((k, op)) => if k == 0 {
                    r matches Ok(o) && o@ == op
                } else {
                    r matches Err(ParseError::Trailing(t)) && t@ == tail(string@, k)
                },
                None => r == Err::<Operand, ParseError>(ParseError::Rejected),
            },
    {
        let s = chars_of(string);
        match parse_operand(&s) {
            Some((k, op)) => {
                if k == 0 {
                    Ok(op)
                } else {
                    let rest = suffix(&s, s.len() - k);
                    Err(ParseError::Trailing(string_of(rest)))
                }
            },
            None => Err(ParseError::Rejected),
        }
    }

    /// Appends the printed operand to `out`.
    pub fn write_text(&self, out: &mut Vec<char>)
        ensures
            final(out)@ == old(out)@ + spec_operand_text(self@),
    {
        match self {
            Operand::Literal(l) => push_all(out, &chars_of(l.text.as_str())),
            Operand::Register(r) => push_all(out, &chars_of(r.text.as_str())),
            Operand::ProgramID(p) => write_program_id(out, p),
            Operand::Signer => push_all(out, &chars_of("self.signer")),
            Operand::Caller => push_all(out, &chars_of("self.caller")),
            Operand::BlockHeight => push_all(out, &chars_of("block.height")),
            Operand::BlockTimestamp => push_all(out, &chars_of("block.timestamp")),
            Operand::NetworkID => push_all(out, &chars_of("network.id")),
            Operand::AleoGenerator => push_all(out, &chars_of("aleo::GENERATOR")),
            Operand::AleoGeneratorPowers(None) => push_all(out, &chars_of("aleo::GENERATOR_POWERS")),
            Operand::AleoGeneratorPowers(Some(i)) => {
                let ghost start = out@;
                push_all(out, &chars_of("aleo::GENERATOR_POWERS["));
                push_decimal(out, *i as u64);
                push_all(out, &chars_of("u32]"));
                assert(out@ =~= start + spec_operand_text(self@));
            },
            Operand::Checksum(p) => {
                let ghost start = out@;
                write_opt_program_id_slash(out, p);
                push_all(out, &chars_of("checksum"));
                assert(out@ =~= start + spec_operand_text(self@));
            },
            Operand::Edition(p) => {
                let ghost start = out@;
                write_opt_program_id_slash(out, p);
                push_all(out, &chars_of("edition"));
                assert(out@ =~= start + spec_operand_text(self@));
            },
            Operand::ProgramOwner(p) => {
                let ghost start = out@;
                write_opt_program_id_slash(out, p);
                push_all(out, &chars_of("program_owner"));
                assert(out@ =~= start + spec_operand_text(self@));
            },
            Operand::ComponentChecksum(p, n) => {
                let ghost start = out@;
                write_opt_program_id_slash(out, p);
                push_all(out, &chars_of(n.name.as_str()));
                push_all(out, &chars_of("/checksum"));
                assert(out@ =~= start + spec_operand_text(self@));
            },
        }
    }

    /// Returns the printed operand.
    pub fn to_string(&self) -> (r: String)
        ensures
            r@ == spec_operand_text(self@),
    {
        let mut out: Vec<char> = Vec::new();
        self.write_text(&mut out);
        assert(out@ =~= spec_operand_text(self@));
        string_of(&out)
    }
}

/// Appends the printed program ID to `out`.
pub fn write_program_id(out: &mut Vec<char>, p: &ProgramID)
    ensures
        final(out)@ == old(out)@ + program_id_text(p@),
{
    push_all(out, &chars_of(p.name.as_str()));
    push_all(out, &chars_of("."));
    push_all(out, &chars_of(p.network.as_str()));
    assert(final(out)@ =~= old(out)@ + program_id_text(p@));
}

fn write_opt_program_id_slash(out: &mut Vec<char>, p: &Option<ProgramID>)
    ensures
        final(out)@ == old(out)@ + opt_program_id_prefix(opt_program_id_view(*p)),
{
    match p {
        Some(p) => {
            write_program_id(out, p);
            push_all(out, &chars_of("/"));
            assert(final(out)@ =~= old(out)@ + (program_id_text(p@) + "/"@));
        },
        None => {
            assert(final(out)@ =~= old(out)@ + Seq::<char>::empty());
        },
    }
}

/// Returns `true` if the two program IDs are equal.
pub fn same_program_id(a: &ProgramID, b: &ProgramID) -> (r: bool)
    ensures
        r == (a@ == b@),
{
    same_text(a.name.as_str(), b.name.as_str()) && same_text(a.network.as_str(), b.network.as_str())
}

fn same_opt_program_id(a: &Option<ProgramID>, b: &Option<ProgramID>) -> (r: bool)
    ensures
        r == (opt_program_id_view(*a) == opt_program_id_view(*b)),
{
    match (a, b) {
        (Some(x), Some(y)) => same_program_id(x, y),
        (None, None) => true,
        _ => false,
    }
}

/// Returns `true` if the two registers are equal.
pub fn same_register(a: &Register, b: &Register) -> (r: bool)
    ensures
        r == (a@ == b@),
{
    a.locator == b.locator && a.is_locator == b.is_locator && same_text(a.text.as_str(), b.text.as_str())
}

/// Returns `true` if the two operands are equal.
pub fn same_operand(a: &Operand, b: &Operand) -> (r: bool)
    ensures
        r == (a@ == b@),
{
    match (a, b) {
        (Operand::Literal(x), Operand::Literal(y)) => same_text(x.text.as_str(), y.text.as_str()),
        (Operand::Register(x), Operand::Register(y)) => same_register(x, y),
        (Operand::ProgramID(x), Operand::ProgramID(y)) => same_program_id(x, y),
        (Operand::Signer, Operand::Signer) => true,
        (Operand::Caller, Operand::Caller) => true,
        (Operand::BlockHeight, Operand::BlockHeight) => true,
        (Operand::BlockTimestamp, Operand::BlockTimestamp) => true,
        (Operand::NetworkID, Operand::NetworkID) => true,
        (Operand::AleoGenerator, Operand::AleoGenerator) => true,
        (Operand::AleoGeneratorPowers(x), Operand::AleoGeneratorPowers(y)) => *x == *y,
        (Operand::Checksum(x), Operand::Checksum(y)) => same_opt_program_id(x, y),
        (Operand::Edition(x), Operand::Edition(y)) => same_opt_program_id(x, y),
        (Operand::ProgramOwner(x), Operand::ProgramOwner(y)) => same_opt_program_id(x, y),
        (Operand::ComponentChecksum(p, n), Operand::ComponentChecksum(q, m)) => same_opt_program_id(p, q)
            && same_text(n.name.as_str(), m.name.as_str()),
        _ => false,
    }
}

} // verus!
