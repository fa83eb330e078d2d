//! The `commit` instruction: commits two operands (a value and a randomizer) into an address,
//! a field or a group element, as in `commit.bhp256 r0 r1 into r2 as field`.
use vstd::prelude::*;

use crate::console::{
    cast_lossy, commit_bhp1024, commit_bhp256, commit_bhp512, commit_bhp768, commit_ped128, commit_ped64,
    console_cast_lossy, console_commit_bhp1024, console_commit_bhp256, console_commit_bhp512, console_commit_bhp768,
    console_commit_ped128, console_commit_ped64, console_literal_type,
};
use crate::instruction::{
    into_as_text, into_register_as, spec_into_register_as, spec_ws_operands_exact, write_into_as,
    ws_operands_exact,
};
use crate::op_bytes::{
    left, left_of, lemma_left, normal_operands, normal_register, read_ops_register, spec_ops_register_bytes,
    spec_read_ops_register, write_ops_register,
};
use crate::operand::{tail, Operand, OperandView, Register, RegisterView};
use crate::syntax::{after, tail_of};
use crate::text::{chars_of, has_prefix, push_all, starts_with, string_of};
use crate::types::{
    lemma_literal_type_id, literal_type_from_id, literal_type_id, literal_type_of_id, register_types_view, LiteralType,
    PlaintextType, PlaintextTypeView, RegisterType, RegisterTypeView, TypeError,
};
use crate::plaintext::{literal_type_name, literal_type_named, literal_type_of_name, literal_type_text};
use crate::plaintext_bits::{bits_of_value, value_bits, value_fits, value_text, PlaintextValue, PlaintextValueView};
use crate::variants::{spec_commit_opcode, CommitVariant};

verus! {

/// The types that a commitment may produce: an address, a field or a group element.
pub open spec fn valid_commit_destination(l: LiteralType) -> bool {
    l == LiteralType::Address || l == LiteralType::Field || l == LiteralType::Group
}

/// The mathematical value of a `commit` instruction.
pub ghost struct CommitView {
    pub variant: u8,
    pub operands: Seq<OperandView>,
    pub destination: RegisterView,
    pub destination_type: LiteralType,
}

/// A `commit` instruction of one of the commitment variants.
#[derive(Debug, PartialEq, Eq)]
pub struct CommitInstruction {
    variant: u8,
    operands: Vec<Operand>,
    destination: Register,
    destination_type: LiteralType,
}

impl View for CommitInstruction {
    type V = CommitView;

    closed spec fn view(&self) -> CommitView {
        CommitView {
            variant: self.variant,
            operands: crate::call_dynamic::operands_view(self.operands@),
            destination: self.destination@,
            destination_type: self.destination_type,
        }
    }
}

/// Why the parts do not make a `commit` instruction, if they do not: it takes two operands and
/// produces an address, a field or a group element.
pub open spec fn commit_error(operands: Seq<OperandView>, destination_type: LiteralType) -> Option<TypeError> {
    if operands.len() != 2 {
        Some(TypeError::OperandCount)
    } else if !valid_commit_destination(destination_type) {
        Some(TypeError::DestinationType)
    } else {
        None
    }
}

fn is_valid_destination(l: LiteralType) -> (r: bool)
    ensures
        r == valid_commit_destination(l),
{
    l == LiteralType::Address || l == LiteralType::Field || l == LiteralType::Group
}

impl CommitInstruction {
    /// The instruction's parts agree with its rules.
    pub closed spec fn wf(&self) -> bool {
        self.variant < 12 && commit_error(self@.operands, self.destination_type) is None
    }

    /// Makes a `commit` instruction of the variant: refused unless there are two operands and
    /// the destination type is an address, a field or a group element.
    pub fn new(variant: u8, operands: Vec<Operand>, destination: Register, destination_type: LiteralType) -> (r: Result<
        CommitInstruction,
        TypeError,
    >)
        requires
            variant < 12,
        ensures
            match commit_error(crate::call_dynamic::operands_view(operands@), destination_type) {
                Some(e) => r == Err::<CommitInstruction, TypeError>(e),
                None => r matches Ok(c) && c.wf() && c@ == (CommitView {
                    variant,
                    operands: crate::call_dynamic::operands_view(operands@),
                    destination: destination@,
                    destination_type,
                }),
            },
    {
        if operands.len() != 2 {
            return Err(TypeError::OperandCount);
        }
        if !is_valid_destination(destination_type) {
            return Err(TypeError::DestinationType);
        }
        Ok(CommitInstruction { variant, operands, destination, destination_type })
    }

    /// The operands: the value and the randomizer.
    pub fn operands(&self) -> (r: &Vec<Operand>)
        ensures
            crate::call_dynamic::operands_view(r@) == self@.operands,
    {
        &self.operands
    }

    /// The opcode.
    pub fn opcode(&self) -> (r: &'static str)
        requires
            self.wf(),
        ensures
            r@ == spec_commit_opcode(self@.variant),
    {
        CommitVariant::opcode(self.variant)
    }

    /// Returns `true` if the instruction names a struct of another program: it never does.
    pub fn contains_external_struct(&self) -> (r: bool)
        ensures
            !r,
    {
        false
    }

    /// The destination registers: the one destination.
    pub fn destinations(&self) -> (r: Vec<Register>)
        ensures
            r@.len() == 1,
            r@[0]@ == self@.destination,
    {
        let mut v: Vec<Register> = Vec::new();
        v.push(self.destination.copy());
        v
    }

    /// The destination register.
    pub fn destination(&self) -> (r: &Register)
        ensures
            r@ == self@.destination,
    {
        &self.destination
    }

    /// The type of the destination.
    pub fn destination_type(&self) -> (r: LiteralType)
        ensures
            r == self@.destination_type,
    {
        self.destination_type
    }

    /// Returns the output types of the instruction with the input types: the destination
    /// type, or why the inputs are refused.
    pub fn output_types(&self, input_types: &Vec<RegisterType>) -> (r: Result<Vec<RegisterType>, TypeError>)
        requires
            self.wf(),
        ensures
            input_types@.len() != 2 ==> r == Err::<Vec<RegisterType>, TypeError>(TypeError::InputCount(2)),
            input_types@.len() == 2 ==> (r matches Ok(v) && register_types_view(v@) == seq![
                RegisterTypeView::Plaintext(PlaintextTypeView::Literal(self@.destination_type)),
            ]),
    {
        if input_types.len() != 2 {
            return Err(TypeError::InputCount(2));
        }
        if self.operands.len() != 2 {
            return Err(TypeError::OperandCount);
        }
        if !is_valid_destination(self.destination_type) {
            return Err(TypeError::DestinationType);
        }
        let mut v: Vec<RegisterType> = Vec::new();
        v.push(RegisterType::Plaintext(PlaintextType::Literal(self.destination_type)));
        assert(register_types_view(v@) =~= seq![
            RegisterTypeView::Plaintext(PlaintextTypeView::Literal(self@.destination_type)),
        ]);
        Ok(v)
    }
}

/// What the `commit` parser of the variant reads from the start of the text: the opcode, two
/// operands, `into`, the destination register, `as` and the destination type, with
/// whitespace between them; the destination type must be an address, a field or a group
/// element. The length of the rest and the instruction.
pub open spec fn spec_parse_commit(variant: u8, t: Seq<char>) -> Option<(nat, CommitView)> {
    let op = spec_commit_opcode(variant);
    if !starts_with(t, op) {
        None
    } else {
        let t0 = after(t, op);
        match spec_ws_operands_exact(t0, 2) {
            Some((k1, operands)) => match spec_into_register_as(tail(t0, k1)) {
                Some((k2, destination)) => match console_literal_type(tail(tail(t0, k1), k2)) {
                    Some((k3, name)) => match literal_type_named(name) {
                        Some(l) => if valid_commit_destination(l) {
                            Some((k3, CommitView { variant, operands, destination, destination_type: l }))
                        } else {
                            None
                        },
                        None => None,
                    },
                    None => None,
                },
                None => None,
            },
            None => None,
        }
    }
}

/// Parses a `commit` instruction of the variant from the start of the characters.
pub fn parse_commit(variant: u8, t: &[char]) -> (r: Option<(usize, CommitInstruction)>)
    requires
        variant < 12,
    ensures
        spec_parse_commit(variant, t@) == match r {
            Some((k, c)) => Some((k as nat, c@)),
            None => None::<(nat, CommitView)>,
        },
        r matches Some((k, c)) ==> k <= t@.len() && c.wf(),
{
    let op = chars_of(CommitVariant::opcode(variant));
    if !has_prefix(t, &op) {
        return None;
    }
    let t0 = tail_of(t, t.len() - op.len());
    let (k1, operands) = match ws_operands_exact(t0, 2) {
        Some(found) => found,
        None => return None,
    };
    let t1 = tail_of(t0, k1);
    let (k2, destination) = match into_register_as(t1) {
        Some(found) => found,
        None => return None,
    };
    let (k3, name) = match crate::console::literal_type(tail_of(t1, k2)) {
        Some(found) => found,
        None => return None,
    };
    let l = match literal_type_of_name(&chars_of(name.as_str())) {
        Some(l) => l,
        None => return None,
    };
    if !is_valid_destination(l) {
        return None;
    }
    Some((k3, CommitInstruction { variant, operands, destination, destination_type: l }))
}

/// The printed instruction.
pub open spec fn commit_text(c: CommitView) -> Seq<char> {
    into_as_text(spec_commit_opcode(c.variant), c.operands, c.destination) + literal_type_name(c.destination_type)
}

impl CommitInstruction {
    /// Returns the printed instruction.
    pub fn to_string(&self) -> (r: String)
        requires
            self.wf(),
        ensures
            r@ == commit_text(self@),
    {
        let mut out: Vec<char> = Vec::new();
        write_into_as(&mut out, CommitVariant::opcode(self.variant), self.operands.as_slice(), &self.destination);
        push_all(&mut out, &chars_of(literal_type_text(self.destination_type)));
        assert(out@ =~= commit_text(self@));
        string_of(&out)
    }

    /// Parses a `commit` instruction of the variant from the start of the string: the rest
    /// of the string and the instruction.
    pub fn parse(variant: u8, string: &str) -> (r: Option<(String, CommitInstruction)>)
        requires
            variant < 12,
        ensures
            match spec_parse_commit(variant, string@) {
                Some((k, c)) => r matches Some((rest, x)) && rest@ == tail(string@, k) && x@ == c && x.wf(),
                None => r is None,
            },
    {
        let s = chars_of(string);
        match parse_commit(variant, &s) {
            Some((k, c)) => Some((string_of(tail_of(&s, k)), c)),
            None => None,
        }
    }

    /// Parses a `commit` instruction of the variant from the whole string.
    pub fn from_str(variant: u8, string: &str) -> (r: Option<CommitInstruction>)
        requires
            variant < 12,
        ensures
            match spec_parse_commit(variant, string@) {
                Some((k, c)) => if k == 0 {
                    r matches Some(x) && x@ == c
                } else {
                    r is None
                },
                None => r is None,
            },
    {
        let s = chars_of(string);
        match parse_commit(variant, &s) {
            Some((k, c)) => if k == 0 {
                Some(c)
            } else {
                None
            },
            None => None,
        }
    }
}

/// The bytes of a `commit` instruction: its two operands, its destination, and the numeric id
/// of the destination type.
pub open spec fn spec_commit_bytes(c: CommitView) -> Option<Seq<u8>> {
    match spec_ops_register_bytes(c.operands, c.destination) {
        Some(a) => Some(a + seq![literal_type_id(c.destination_type)]),
        None => None,
    }
}

/// A `commit` instruction of the variant read from the bytes: two operands, the destination
/// and the id of a literal type, which must be an address, a field or a group element. The
/// number of bytes left and the instruction.
pub open spec fn spec_read_commit(variant: u8, b: Seq<u8>) -> Option<(nat, CommitView)> {
    match spec_read_ops_register(b, 2) {
        Some((k, operands, destination)) => {
            let t = left(b, k);
            if t.len() == 0 || t[0] >= 18 || !valid_commit_destination(literal_type_of_id(t[0])) {
                None
            } else {
                Some(
                    (
                        (t.len() - 1) as nat,
                        CommitView { variant, operands, destination, destination_type: literal_type_of_id(t[0]) },
                    ),
                )
            }
        },
        None => None,
    }
}

/// The instruction as console reads back what its operands and destination hold.
pub open spec fn normal_commit(c: CommitView) -> CommitView {
    CommitView {
        variant: c.variant,
        operands: normal_operands(c.operands),
        destination: normal_register(c.destination),
        destination_type: c.destination_type,
    }
}

impl CommitInstruction {
    /// Writes the instruction as bytes: `None` where console cannot write what an operand or
    /// the destination holds. Reading the bytes back gives the instruction as console reads
    /// back what it holds, whatever follows.
    pub fn write_le(&self) -> (r: Option<Vec<u8>>)
        requires
            self.wf(),
        ensures
            spec_commit_bytes(self@) == match r {
                Some(b) => Some(b@),
                None => None::<Seq<u8>>,
            },
            r matches Some(b) ==> forall|rest: Seq<u8>|
                #[trigger] spec_read_commit(self@.variant, b@ + rest) == Some((rest.len(), normal_commit(self@))),
    {
        let mut out: Vec<u8> = Vec::new();
        if !write_ops_register(&mut out, self.operands.as_slice(), &self.destination) {
            return None;
        }
        let ghost a = out@;
        out.push(self.destination_type.type_id());
        proof {
            lemma_literal_type_id(self.destination_type);
            let id = literal_type_id(self.destination_type);
            assert(out@ =~= a + seq![id]);
            assert forall|rest: Seq<u8>| #[trigger] spec_read_commit(self@.variant, out@ + rest) == Some(
                (rest.len(), normal_commit(self@)),
            ) by {
                assert(out@ + rest =~= a + (seq![id] + rest));
                let r = spec_read_ops_register(a + (seq![id] + rest), 2);
                assert(r == Some(((seq![id] + rest).len(), normal_operands(self@.operands), normal_register(self@.destination))));
                lemma_left(a, seq![id] + rest);
                assert((seq![id] + rest)[0] == id);
            }
        }
        Some(out)
    }

    /// Reads a `commit` instruction of the variant from the start of the bytes: the number of
    /// bytes left and the instruction.
    pub fn read_le(variant: u8, b: &[u8]) -> (r: Option<(usize, CommitInstruction)>)
        requires
            variant < 12,
        ensures
            spec_read_commit(variant, b@) == match r {
                Some((k, x)) => Some((k as nat, x@)),
                None => None::<(nat, CommitView)>,
            },
            r matches Some((k, x)) ==> k <= b@.len() && x.wf(),
    {
        let (k, operands, destination) = match read_ops_register(b, 2) {
            Some(found) => found,
            None => return None,
        };
        let t = left_of(b, k);
        if t.len() == 0 || t[0] >= 18 {
            return None;
        }
        let l = literal_type_from_id(t[0]);
        if !is_valid_destination(l) {
            return None;
        }
        Some((t.len() - 1, CommitInstruction { variant, operands, destination, destination_type: l }))
    }
}

/// The group element that the commitment scheme at the position (BHP256, BHP512, BHP768,
/// BHP1024, PED64, PED128) gives for the bits and the randomizer, printed.
pub open spec fn spec_commit_to_group(scheme: u8, bits: Seq<bool>, randomizer: Seq<char>) -> Option<Seq<char>> {
    if scheme == 0 {
        console_commit_bhp256(bits, randomizer)
    } else if scheme == 1 {
        console_commit_bhp512(bits, randomizer)
    } else if scheme == 2 {
        console_commit_bhp768(bits, randomizer)
    } else if scheme == 3 {
        console_commit_bhp1024(bits, randomizer)
    } else if scheme == 4 {
        console_commit_ped64(bits, randomizer)
    } else if scheme == 5 {
        console_commit_ped128(bits, randomizer)
    } else {
        None
    }
}

/// The commitment of the variant at the position to the value with the randomizer: the group
/// element that its scheme gives for the value's bits (raw bits for the `.raw` variants), cast
/// without loss checks to the destination type; printed.
pub open spec fn spec_evaluate_commit(
    variant: u8,
    input: PlaintextValueView,
    randomizer: Seq<char>,
    destination_type: LiteralType,
) -> Option<Seq<char>> {
    if variant >= 12 {
        None
    } else {
        match value_bits(value_text(input), 6 <= variant) {
            None => None,
            Some(bits) => match spec_commit_to_group((variant % 6) as u8, bits, randomizer) {
                None => None,
                Some(group) => console_cast_lossy(group, literal_type_id(destination_type)),
            },
        }
    }
}

/// The position of the commit variant.
pub open spec fn commit_variant_index(v: CommitVariant) -> u8 {
    match v {
        CommitVariant::CommitBHP256 => 0,
        CommitVariant::CommitBHP512 => 1,
        CommitVariant::CommitBHP768 => 2,
        CommitVariant::CommitBHP1024 => 3,
        CommitVariant::CommitPED64 => 4,
        CommitVariant::CommitPED128 => 5,
        CommitVariant::CommitBHP256Raw => 6,
        CommitVariant::CommitBHP512Raw => 7,
        CommitVariant::CommitBHP768Raw => 8,
        CommitVariant::CommitBHP1024Raw => 9,
        CommitVariant::CommitPED64Raw => 10,
        CommitVariant::CommitPED128Raw => 11,
    }
}

fn commit_at(variant: u8, input: &PlaintextValue, randomizer: &str, destination_type: LiteralType) -> (r: Option<String>)
    requires
        variant < 6 ==> value_fits(input@),
    ensures
        spec_evaluate_commit(variant, input@, randomizer@, destination_type) == match r {
            Some(t) => Some(t@),
            None => None::<Seq<char>>,
        },
{
    if variant >= 12 {
        return None;
    }
    let bits = match bits_of_value(input, 6 <= variant) {
        Some(b) => b,
        None => return None,
    };
    let scheme = variant % 6;
    let group = if scheme == 0 {
        commit_bhp256(&bits, randomizer)
    } else if scheme == 1 {
        commit_bhp512(&bits, randomizer)
    } else if scheme == 2 {
        commit_bhp768(&bits, randomizer)
    } else if scheme == 3 {
        commit_bhp1024(&bits, randomizer)
    } else if scheme == 4 {
        commit_ped64(&bits, randomizer)
    } else {
        commit_ped128(&bits, randomizer)
    };
    match group {
        Some(g) => cast_lossy(g.as_str(), destination_type.type_id()),
        None => None,
    }
}

/// The commit variant at the position, if there is one.
fn commit_variant_at(i: u8) -> (r: Option<CommitVariant>)
    ensures
        match r {
            Some(v) => commit_variant_index(v) == i,
            None => i >= 12,
        },
{
    match i {
        0 => Some(CommitVariant::CommitBHP256),
        1 => Some(CommitVariant::CommitBHP512),
        2 => Some(CommitVariant::CommitBHP768),
        3 => Some(CommitVariant::CommitBHP1024),
        4 => Some(CommitVariant::CommitPED64),
        5 => Some(CommitVariant::CommitPED128),
        6 => Some(CommitVariant::CommitBHP256Raw),
        7 => Some(CommitVariant::CommitBHP512Raw),
        8 => Some(CommitVariant::CommitBHP768Raw),
        9 => Some(CommitVariant::CommitBHP1024Raw),
        10 => Some(CommitVariant::CommitPED64Raw),
        11 => Some(CommitVariant::CommitPED128Raw),
        _ => None,
    }
}

/// Commits to the value with the randomizer (a scalar, as text) under the commitment variant,
/// and returns the result cast to the destination type, printed.
pub fn evaluate_commit(variant: CommitVariant, input: &PlaintextValue, randomizer: &str, destination_type: LiteralType) -> (r:
    Option<String>)
    requires
        commit_variant_index(variant) < 6 ==> value_fits(input@),
    ensures
        spec_evaluate_commit(commit_variant_index(variant), input@, randomizer@, destination_type) == match r {
            Some(t) => Some(t@),
            None => None::<Seq<char>>,
        },
{
    let index: u8 = match variant {
        CommitVariant::CommitBHP256 => 0,
        CommitVariant::CommitBHP512 => 1,
        CommitVariant::CommitBHP768 => 2,
        CommitVariant::CommitBHP1024 => 3,
        CommitVariant::CommitPED64 => 4,
        CommitVariant::CommitPED128 => 5,
        CommitVariant::CommitBHP256Raw => 6,
        CommitVariant::CommitBHP512Raw => 7,
        CommitVariant::CommitBHP768Raw => 8,
        CommitVariant::CommitBHP1024Raw => 9,
        CommitVariant::CommitPED64Raw => 10,
        CommitVariant::CommitPED128Raw => 11,
    };
    commit_at(index, input, randomizer, destination_type)
}

impl CommitInstruction {
    /// Evaluates the instruction on the values of its two operands and returns the value for
    /// its destination: the commitment of the first under the randomizer that the second holds
    /// (a scalar literal), cast to the destination type; `None` where the variant commits to the
    /// bits of the value with metadata and console could not write them.
    pub fn evaluate(&self, input: &PlaintextValue, randomizer: &PlaintextValue) -> (r: Option<PlaintextValue>)
        ensures
            if self@.variant < 6 && !value_fits(input@) {
                r is None
            } else {
                match randomizer@ {
                PlaintextValueView::Literal(rt) => match spec_evaluate_commit(
                    self@.variant,
                    input@,
                    rt,
                    self@.destination_type,
                ) {
                    Some(t) => r matches Some(v) && v@ == PlaintextValueView::Literal(t),
                    None => r is None,
                },
                _ => r is None,
                }
            },
    {
        if self.variant < 6 && !input.bits_fit() {
            return None;
        }
        let variant = match commit_variant_at(self.variant) {
            Some(v) => v,
            None => return None,
        };
        match randomizer {
            PlaintextValue::Literal(rt) => match evaluate_commit(variant, input, rt.as_str(), self.destination_type) {
                Some(t) => Some(PlaintextValue::Literal(t)),
                None => None,
            },
            _ => None,
        }
    }
}


/// Each commit variant commits with the scheme its opcode names (`commit.bhp256`,
/// `commit.bhp512`, `commit.bhp768`, `commit.bhp1024`, `commit.ped64`, `commit.ped128`) to the
/// value's bits with metadata, or to the bits of its bare values for the `.raw` forms, under the
/// randomizer, and casts the group element without loss checks to the destination type.
pub proof fn lemma_commit_variants(input: PlaintextValueView, randomizer: Seq<char>, l: LiteralType)
    ensures
        spec_commit_opcode(commit_variant_index(CommitVariant::CommitBHP256)) == "commit.bhp256"@,
        spec_evaluate_commit(commit_variant_index(CommitVariant::CommitBHP256), input, randomizer, l) == match value_bits(
            value_text(input),
            false,
        ) {
            None => None,
            Some(b) => match console_commit_bhp256(b, randomizer) {
                None => None,
                Some(g) => console_cast_lossy(g, literal_type_id(l)),
            },
        },
        spec_commit_opcode(commit_variant_index(CommitVariant::CommitBHP512)) == "commit.bhp512"@,
        spec_evaluate_commit(commit_variant_index(CommitVariant::CommitBHP512), input, randomizer, l) == match value_bits(
            value_text(input),
            false,
        ) {
            None => None,
            Some(b) => match console_commit_bhp512(b, randomizer) {
                None => None,
                Some(g) => console_cast_lossy(g, literal_type_id(l)),
            },
        },
        spec_commit_opcode(commit_variant_index(CommitVariant::CommitBHP768)) == "commit.bhp768"@,
        spec_evaluate_commit(commit_variant_index(CommitVariant::CommitBHP768), input, randomizer, l) == match value_bits(
            value_text(input),
            false,
        ) {
            None => None,
            Some(b) => match console_commit_bhp768(b, randomizer) {
                None => None,
                Some(g) => console_cast_lossy(g, literal_type_id(l)),
            },
        },
        spec_commit_opcode(commit_variant_index(CommitVariant::CommitBHP1024)) == "commit.bhp1024"@,
        spec_evaluate_commit(commit_variant_index(CommitVariant::CommitBHP1024), input, randomizer, l) == match value_bits(
            value_text(input),
            false,
        ) {
            None => None,
            Some(b) => match console_commit_bhp1024(b, randomizer) {
                None => None,
                Some(g) => console_cast_lossy(g, literal_type_id(l)),
            },
        },
        spec_commit_opcode(commit_variant_index(CommitVariant::CommitPED64)) == "commit.ped64"@,
        spec_evaluate_commit(commit_variant_index(CommitVariant::CommitPED64), input, randomizer, l) == match value_bits(
            value_text(input),
            false,
        ) {
            None => None,
            Some(b) => match console_commit_ped64(b, randomizer) {
                None => None,
                Some(g) => console_cast_lossy(g, literal_type_id(l)),
            },
        },
        spec_commit_opcode(commit_variant_index(CommitVariant::CommitPED128)) == "commit.ped128"@,
        spec_evaluate_commit(commit_variant_index(CommitVariant::CommitPED128), input, randomizer, l) == match value_bits(
            value_text(input),
            false,
        ) {
            None => None,
            Some(b) => match console_commit_ped128(b, randomizer) {
                None => None,
                Some(g) => console_cast_lossy(g, literal_type_id(l)),
            },
        },
        spec_commit_opcode(commit_variant_index(CommitVariant::CommitBHP256Raw)) == "commit.bhp256.raw"@,
        spec_evaluate_commit(commit_variant_index(CommitVariant::CommitBHP256Raw), input, randomizer, l) == match value_bits(
            value_text(input),
            true,
        ) {
            None => None,
            Some(b) => match console_commit_bhp256(b, randomizer) {
                None => None,
                Some(g) => console_cast_lossy(g, literal_type_id(l)),
            },
        },
        spec_commit_opcode(commit_variant_index(CommitVariant::CommitBHP512Raw)) == "commit.bhp512.raw"@,
        spec_evaluate_commit(commit_variant_index(CommitVariant::CommitBHP512Raw), input, randomizer, l) == match value_bits(
            value_text(input),
            true,
        ) {
            None => None,
            Some(b) => match console_commit_bhp512(b, randomizer) {
                None => None,
                Some(g) => console_cast_lossy(g, literal_type_id(l)),
            },
        },
        spec_commit_opcode(commit_variant_index(CommitVariant::CommitBHP768Raw)) == "commit.bhp768.raw"@,
        spec_evaluate_commit(commit_variant_index(CommitVariant::CommitBHP768Raw), input, randomizer, l) == match value_bits(
            value_text(input),
            true,
        ) {
            None => None,
            Some(b) => match console_commit_bhp768(b, randomizer) {
                None => None,
                Some(g) => console_cast_lossy(g, literal_type_id(l)),
            },
        },
        spec_commit_opcode(commit_variant_index(CommitVariant::CommitBHP1024Raw)) == "commit.bhp1024.raw"@,
        spec_evaluate_commit(commit_variant_index(CommitVariant::CommitBHP1024Raw), input, randomizer, l) == match value_bits(
            value_text(input),
            true,
        ) {
            None => None,
            Some(b) => match console_commit_bhp1024(b, randomizer) {
                None => None,
                Some(g) => console_cast_lossy(g, literal_type_id(l)),
            },
        },
        spec_commit_opcode(commit_variant_index(CommitVariant::CommitPED64Raw)) == "commit.ped64.raw"@,
        spec_evaluate_commit(commit_variant_index(CommitVariant::CommitPED64Raw), input, randomizer, l) == match value_bits(
            value_text(input),
            true,
        ) {
            None => None,
            Some(b) => match console_commit_ped64(b, randomizer) {
                None => None,
                Some(g) => console_cast_lossy(g, literal_type_id(l)),
            },
        },
        spec_commit_opcode(commit_variant_index(CommitVariant::CommitPED128Raw)) == "commit.ped128.raw"@,
        spec_evaluate_commit(commit_variant_index(CommitVariant::CommitPED128Raw), input, randomizer, l) == match value_bits(
            value_text(input),
            true,
        ) {
            None => None,
            Some(b) => match console_commit_ped128(b, randomizer) {
                None => None,
                Some(g) => console_cast_lossy(g, literal_type_id(l)),
            },
        },
{
}

} // verus!
