//! The `hash` instructions: hash their operands into a plaintext type, as in
//! `hash.bhp256 r0 into r1 as field` or `hash.keccak256.native r0 into r1 as [boolean; 256u32]`.
use vstd::prelude::*;

use crate::call_dynamic::operands_view;
use crate::instruction::{
    into_as_text, into_register_as, spec_into_register_as, spec_ws_operands_exact, write_into_as,
    ws_operands_exact,
};
use crate::op_bytes::{
    normal_operands, normal_plaintext_type, normal_register, read_ops_register_type, spec_ops_register_type_bytes,
    spec_read_ops_register_type, write_ops_register_type,
};
use crate::operand::{tail, Operand, OperandView, Register, RegisterView};
use crate::plaintext::{parse_plaintext_type, plaintext_type_text, spec_parse_plaintext_type};
use crate::syntax::{after, tail_of};
use crate::text::{chars_of, has_prefix, starts_with, string_of};
use crate::types::{
    contains_external_struct, hash_error, hash_output_types, is_valid_hash_destination,
    plaintext_contains_external_struct, register_types_view, valid_hash_destination, LiteralType, PlaintextType,
    PlaintextTypeView, RegisterType, RegisterTypeView, TypeError,
};
use crate::console::{
    cast_lossy, console_cast_lossy, console_hash_keccak256, console_hash_keccak384, console_hash_keccak512,
    console_hash_psd2, console_hash_psd4, console_hash_psd8, console_hash_sha3_256, console_hash_sha3_384,
    console_hash_sha3_512, console_hash_to_group_bhp1024, console_hash_to_group_bhp256, console_hash_to_group_bhp512,
    console_hash_to_group_bhp768, console_hash_to_group_ped128, console_hash_to_group_ped64,
    console_hash_to_group_psd2, console_hash_to_group_psd4, console_hash_to_group_psd8,
    console_plaintext_fields, console_plaintext_fields_raw, hash_keccak256, hash_keccak384, hash_keccak512,
    hash_psd2, hash_psd4, hash_psd8, hash_sha3_256, hash_sha3_384, hash_sha3_512, hash_to_group_bhp1024,
    hash_to_group_bhp256, hash_to_group_bhp512, hash_to_group_bhp768, hash_to_group_ped128, hash_to_group_ped64,
    hash_to_group_psd2, hash_to_group_psd4, hash_to_group_psd8, plaintext_bits_fit, plaintext_fields, plaintext_fields_raw,
    texts_view,
};
use crate::plaintext_bits::{
    bit_array_value, bits_of_value, fit_depth, from_bit_array, opt_value_view, value_bits, value_fits, value_text,
    PlaintextValue,
    PlaintextValueView,
};
use crate::types::literal_type_id;
use crate::variants::HashVariant;

verus! {

/// The mathematical value of a `hash` instruction.
pub ghost struct HashView {
    pub variant: HashVariant,
    pub operands: Seq<OperandView>,
    pub destination: RegisterView,
    pub destination_type: PlaintextTypeView,
}

/// A `hash` instruction of one of the hash variants.
#[derive(Debug, PartialEq, Eq)]
pub struct HashInstruction {
    variant: HashVariant,
    operands: Vec<Operand>,
    destination: Register,
    destination_type: PlaintextType,
}

impl View for HashInstruction {
    type V = HashView;

    closed spec fn view(&self) -> HashView {
        HashView {
            variant: self.variant,
            operands: operands_view(self.operands@),
            destination: self.destination@,
            destination_type: self.destination_type@,
        }
    }
}

/// Why the parts do not make a `hash` instruction of the variant, if they do not: it takes the
/// variant's number of operands and a destination type that the variant may produce.
pub open spec fn hash_instruction_error(
    variant: HashVariant,
    operands: Seq<OperandView>,
    destination_type: PlaintextTypeView,
) -> Option<TypeError> {
    if operands.len() != variant.spec_expected_num_operands() {
        Some(TypeError::OperandCount)
    } else if !is_valid_hash_destination(variant, destination_type) {
        Some(TypeError::DestinationType)
    } else {
        None
    }
}

/// The destination types that the text of a `hash` instruction may not name: a boolean, a
/// string or an identifier.
pub open spec fn refused_by_hash_parser(t: PlaintextTypeView) -> bool {
    ||| t == PlaintextTypeView::Literal(LiteralType::Boolean)
    ||| t == PlaintextTypeView::Literal(LiteralType::String)
    ||| t == PlaintextTypeView::Literal(LiteralType::Identifier)
}

impl HashInstruction {
    /// The instruction has the variant's number of operands.
    pub closed spec fn wf(&self) -> bool {
        self.operands@.len() == self.variant.spec_expected_num_operands()
    }

    /// Makes a `hash` instruction of the variant: refused unless it has the variant's number of
    /// operands and the variant may produce the destination type.
    pub fn new(variant: HashVariant, operands: Vec<Operand>, destination: Register, destination_type: PlaintextType) -> (r:
        Result<HashInstruction, TypeError>)
        ensures
            match hash_instruction_error(variant, operands_view(operands@), destination_type@) {
                Some(e) => r == Err::<HashInstruction, TypeError>(e),
                None => r matches Ok(h) && h.wf() && h@ == (HashView {
                    variant,
                    operands: operands_view(operands@),
                    destination: destination@,
                    destination_type: destination_type@,
                }),
            },
    {
        if operands.len() != variant.expected_num_operands() {
            return Err(TypeError::OperandCount);
        }
        if !valid_hash_destination(variant, &destination_type) {
            return Err(TypeError::DestinationType);
        }
        Ok(HashInstruction { variant, operands, destination, destination_type })
    }

    /// The hash variant.
    pub fn variant(&self) -> (r: HashVariant)
        ensures
            r == self@.variant,
    {
        self.variant
    }

    /// The operands.
    pub fn operands(&self) -> (r: &Vec<Operand>)
        ensures
            operands_view(r@) == self@.operands,
    {
        &self.operands
    }

    /// The opcode.
    pub fn opcode(&self) -> (r: &'static str)
        ensures
            r@ == self@.variant.spec_opcode(),
    {
        self.variant.opcode()
    }

    /// The destination registers: the one destination.
    pub fn destinations(&self) -> (r: Vec<Register>)
        ensures
            r@.len() == 1,
            r@[0]@ == self@.destination,
    {
        let mut v: Vec<Register> = Vec::new();
        v.push(self.destination.copy());
        v
    }

    /// The destination register.
    pub fn destination(&self) -> (r: &Register)
        ensures
            r@ == self@.destination,
    {
        &self.destination
    }

    /// The type of the destination.
    pub fn destination_type(&self) -> (r: &PlaintextType)
        ensures
            r@ == self@.destination_type,
    {
        &self.destination_type
    }

    /// Returns `true` if the destination type holds a struct of another program.
    pub fn contains_external_struct(&self) -> (r: bool)
        ensures
            r == contains_external_struct(self@.destination_type),
    {
        plaintext_contains_external_struct(&self.destination_type)
    }

    /// Returns the output types of the instruction with the input types, `input_bits` being the
    /// size in bits of the input's type where the variant hashes bytes: the destination type,
    /// or why the inputs are refused.
    pub fn output_types(&self, input_types: &Vec<RegisterType>, input_bits: Option<u64>) -> (r: Result<
        Vec<RegisterType>,
        TypeError,
    >)
        ensures
            match hash_error(
                self@.variant,
                self@.operands.len() as usize,
                self@.destination_type,
                register_types_view(input_types@),
                input_bits,
            ) {
                Some(e) => r == Err::<Vec<RegisterType>, TypeError>(e),
                None => r matches Ok(v) && register_types_view(v@) == seq![
                    RegisterTypeView::Plaintext(self@.destination_type),
                ],
            },
    {
        hash_output_types(self.variant, self.operands.len(), &self.destination_type, input_types, input_bits)
    }
}

/// What the `hash` parser of the variant reads from the start of the text: the opcode, the
/// variant's number of operands, `into`, the destination register, `as` and the destination
/// type, with whitespace between them; the destination type may not be a boolean, a string or
/// an identifier. The length of the rest and the instruction.
pub open spec fn spec_parse_hash(variant: HashVariant, t: Seq<char>) -> Option<(nat, HashView)> {
    let op = variant.spec_opcode();
    if !starts_with(t, op) {
        None
    } else {
        let t0 = after(t, op);
        match spec_ws_operands_exact(t0, variant.spec_expected_num_operands() as nat) {
            Some((k1, operands)) => match spec_into_register_as(tail(t0, k1)) {
                Some((k2, destination)) => match spec_parse_plaintext_type(tail(tail(t0, k1), k2)) {
                    Some((k3, destination_type)) => if refused_by_hash_parser(destination_type) {
                        None
                    } else {
                        Some((k3, HashView { variant, operands, destination, destination_type }))
                    },
                    None => None,
                },
                None => None,
            },
            None => None,
        }
    }
}

fn refused_type(t: &PlaintextType) -> (r: bool)
    ensures
        r == refused_by_hash_parser(t@),
{
    match t {
        PlaintextType::Literal(l) => *l == LiteralType::Boolean || *l == LiteralType::String || *l
            == LiteralType::Identifier,
        _ => false,
    }
}

/// Parses a `hash` instruction of the variant from the start of the characters.
pub fn parse_hash(variant: HashVariant, t: &[char]) -> (r: Option<(usize, HashInstruction)>)
    ensures
        spec_parse_hash(variant, t@) == match r {
            Some((k, h)) => Some((k as nat, h@)),
            None => None::<(nat, HashView)>,
        },
        r matches Some((k, h)) ==> k <= t@.len() && h.wf(),
{
    let op = chars_of(variant.opcode());
    if !has_prefix(t, &op) {
        return None;
    }
    let t0 = tail_of(t, t.len() - op.len());
    let (k1, operands) = match ws_operands_exact(t0, variant.expected_num_operands()) {
        Some(found) => found,
        None => return None,
    };
    let t1 = tail_of(t0, k1);
    let (k2, destination) = match into_register_as(t1) {
        Some(found) => found,
        None => return None,
    };
    let (k3, destination_type) = match parse_plaintext_type(tail_of(t1, k2)) {
        Some(found) => found,
        None => return None,
    };
    if refused_type(&destination_type) {
        return None;
    }
    Some((k3, HashInstruction { variant, operands, destination, destination_type }))
}

/// The printed instruction.
pub open spec fn hash_text(h: HashView) -> Seq<char> {
    into_as_text(h.variant.spec_opcode(), h.operands, h.destination) + plaintext_type_text(h.destination_type)
}

impl HashInstruction {
    /// Returns the printed instruction.
    pub fn to_string(&self) -> (r: String)
        requires
            self.wf(),
        ensures
            r@ == hash_text(self@),
    {
        let mut out: Vec<char> = Vec::new();
        write_into_as(&mut out, self.variant.opcode(), self.operands.as_slice(), &self.destination);
        self.destination_type.write_text(&mut out);
        assert(out@ =~= hash_text(self@));
        string_of(&out)
    }

    /// Parses a `hash` instruction of the variant from the start of the string: the rest of
    /// the string and the instruction.
    pub fn parse(variant: HashVariant, string: &str) -> (r: Option<(String, HashInstruction)>)
        ensures
            match spec_parse_hash(variant, string@) {
                Some((k, h)) => r matches Some((rest, x)) && rest@ == tail(string@, k) && x@ == h && x.wf(),
                None => r is None,
            },
    {
        let s = chars_of(string);
        match parse_hash(variant, &s) {
            Some((k, h)) => Some((string_of(tail_of(&s, k)), h)),
            None => None,
        }
    }

    /// Parses a `hash` instruction of the variant from the whole string.
    pub fn from_str(variant: HashVariant, string: &str) -> (r: Option<HashInstruction>)
        ensures
            match spec_parse_hash(variant, string@) {
                Some((k, h)) => if k == 0 {
                    r matches Some(x) && x@ == h
                } else {
                    r is None
                },
                None => r is None,
            },
    {
        let s = chars_of(string);
        match parse_hash(variant, &s) {
            Some((k, h)) => if k == 0 {
                Some(h)
            } else {
                None
            },
            None => None,
        }
    }
}

/// The bytes of a `hash` instruction: its operands, its destination and the destination's type.
pub open spec fn spec_hash_bytes(h: HashView) -> Option<Seq<u8>> {
    spec_ops_register_type_bytes(h.operands, h.destination, h.destination_type)
}

/// A `hash` instruction of the variant read from the bytes: the variant's number of operands,
/// the destination and its type. The number of bytes left and the instruction.
pub open spec fn spec_read_hash(variant: HashVariant, b: Seq<u8>) -> Option<(nat, HashView)> {
    match spec_read_ops_register_type(b, variant.spec_expected_num_operands() as nat) {
        Some((k, operands, destination, destination_type)) => Some(
            (k, HashView { variant, operands, destination, destination_type }),
        ),
        None => None,
    }
}

/// The instruction as console reads back what its parts hold.
pub open spec fn normal_hash(h: HashView) -> HashView {
    HashView {
        variant: h.variant,
        operands: normal_operands(h.operands),
        destination: normal_register(h.destination),
        destination_type: normal_plaintext_type(h.destination_type),
    }
}

impl HashInstruction {
    /// Writes the instruction as bytes: `None` where console cannot write what a part holds.
    /// Reading the bytes back gives the instruction as console reads back what it holds,
    /// whatever follows.
    pub fn write_le(&self) -> (r: Option<Vec<u8>>)
        requires
            self.wf(),
        ensures
            spec_hash_bytes(self@) == match r {
                Some(b) => Some(b@),
                None => None::<Seq<u8>>,
            },
            r matches Some(b) ==> forall|rest: Seq<u8>|
                #[trigger] spec_read_hash(self@.variant, b@ + rest) == Some((rest.len(), normal_hash(self@))),
    {
        let mut out: Vec<u8> = Vec::new();
        if !write_ops_register_type(&mut out, self.operands.as_slice(), &self.destination, &self.destination_type) {
            return None;
        }
        assert(out@ =~= spec_hash_bytes(self@)->0);
        Some(out)
    }

    /// Reads a `hash` instruction of the variant from the start of the bytes: the number of
    /// bytes left and the instruction.
    pub fn read_le(variant: HashVariant, b: &[u8]) -> (r: Option<(usize, HashInstruction)>)
        ensures
            spec_read_hash(variant, b@) == match r {
                Some((k, x)) => Some((k as nat, x@)),
                None => None::<(nat, HashView)>,
            },
            r matches Some((k, x)) ==> k <= b@.len() && x.wf(),
    {
        match read_ops_register_type(b, variant.expected_num_operands()) {
            Some((k, operands, destination, destination_type)) => Some(
                (k, HashInstruction { variant, operands, destination, destination_type }),
            ),
            None => None,
        }
    }
}

/// The last step of a hash variant.
#[derive(Clone, Copy, Debug, PartialEq, Eq, Structural)]
pub enum HashOuter {
    /// A hash of the bits to a group element with the hash at the position (BHP256, BHP512,
    /// BHP768, BHP1024, PED64, PED128), cast to the destination literal type.
    Group(u8),
    /// A Poseidon hash of the field elements (rate 2, 4 or 8 at positions 0, 1, 2): to a group
    /// element for an address or a group destination, else to a field element; cast to the
    /// destination literal type.
    Poseidon(u8),
    /// The bits of the digest, as an array of booleans of the destination's length.
    BitArray,
    /// The variant is not implemented.
    Unimplemented,
}

/// How a hash variant computes: whether it reads the bare values of its input (without
/// metadata), which digest it first applies to the bits (Keccak-256, Keccak-384, Keccak-512,
/// SHA3-256, SHA3-384, SHA3-512 at positions 0 to 5), whether the bits must fill whole bytes,
/// and its last step.
#[derive(Clone, Copy, Debug, PartialEq, Eq, Structural)]
pub struct HashPlan {
    pub raw: bool,
    pub digest: Option<u8>,
    pub byte_aligned: bool,
    pub outer: HashOuter,
}

/// A plan.
pub open spec fn plan(raw: bool, digest: Option<u8>, byte_aligned: bool, outer: HashOuter) -> HashPlan {
    HashPlan { raw, digest, byte_aligned, outer }
}

/// The plan of each hash variant.
pub open spec fn spec_hash_plan(v: HashVariant) -> HashPlan {
    match v {
        HashVariant::HashBHP256 => plan(false, None, false, HashOuter::Group(0u8)),
        HashVariant::HashBHP512 => plan(false, None, false, HashOuter::Group(1u8)),
        HashVariant::HashBHP768 => plan(false, None, false, HashOuter::Group(2u8)),
        HashVariant::HashBHP1024 => plan(false, None, false, HashOuter::Group(3u8)),
        HashVariant::HashKeccak256 => plan(false, Some(0u8), false, HashOuter::Group(0u8)),
        HashVariant::HashKeccak384 => plan(false, Some(1u8), false, HashOuter::Group(1u8)),
        HashVariant::HashKeccak512 => plan(false, Some(2u8), false, HashOuter::Group(1u8)),
        HashVariant::HashPED64 => plan(false, None, false, HashOuter::Group(4u8)),
        HashVariant::HashPED128 => plan(false, None, false, HashOuter::Group(5u8)),
        HashVariant::HashPSD2 => plan(false, None, false, HashOuter::Poseidon(0u8)),
        HashVariant::HashPSD4 => plan(false, None, false, HashOuter::Poseidon(1u8)),
        HashVariant::HashPSD8 => plan(false, None, false, HashOuter::Poseidon(2u8)),
        HashVariant::HashSha3_256 => plan(false, Some(3u8), false, HashOuter::Group(0u8)),
        HashVariant::HashSha3_384 => plan(false, Some(4u8), false, HashOuter::Group(1u8)),
        HashVariant::HashSha3_512 => plan(false, Some(5u8), false, HashOuter::Group(1u8)),
        HashVariant::HashManyPSD2 => plan(false, None, false, HashOuter::Unimplemented),
        HashVariant::HashManyPSD4 => plan(false, None, false, HashOuter::Unimplemented),
        HashVariant::HashManyPSD8 => plan(false, None, false, HashOuter::Unimplemented),
        HashVariant::HashBHP256Raw => plan(true, None, false, HashOuter::Group(0u8)),
        HashVariant::HashBHP512Raw => plan(true, None, false, HashOuter::Group(1u8)),
        HashVariant::HashBHP768Raw => plan(true, None, false, HashOuter::Group(2u8)),
        HashVariant::HashBHP1024Raw => plan(true, None, false, HashOuter::Group(3u8)),
        HashVariant::HashKeccak256Raw => plan(true, Some(0u8), true, HashOuter::Group(0u8)),
        HashVariant::HashKeccak384Raw => plan(true, Some(1u8), true, HashOuter::Group(1u8)),
        HashVariant::HashKeccak512Raw => plan(true, Some(2u8), true, HashOuter::Group(1u8)),
        HashVariant::HashPED64Raw => plan(true, None, false, HashOuter::Group(4u8)),
        HashVariant::HashPED128Raw => plan(true, None, false, HashOuter::Group(5u8)),
        HashVariant::HashPSD2Raw => plan(true, None, false, HashOuter::Poseidon(0u8)),
        HashVariant::HashPSD4Raw => plan(true, None, false, HashOuter::Poseidon(1u8)),
        HashVariant::HashPSD8Raw => plan(true, None, false, HashOuter::Poseidon(2u8)),
        HashVariant::HashSha3_256Raw => plan(true, Some(3u8), true, HashOuter::Group(0u8)),
        HashVariant::HashSha3_384Raw => plan(true, Some(4u8), true, HashOuter::Group(1u8)),
        HashVariant::HashSha3_512Raw => plan(true, Some(5u8), true, HashOuter::Group(1u8)),
        HashVariant::HashKeccak256Native => plan(false, Some(0u8), false, HashOuter::BitArray),
        HashVariant::HashKeccak256NativeRaw => plan(true, Some(0u8), true, HashOuter::BitArray),
        HashVariant::HashKeccak384Native => plan(false, Some(1u8), false, HashOuter::BitArray),
        HashVariant::HashKeccak384NativeRaw => plan(true, Some(1u8), true, HashOuter::BitArray),
        HashVariant::HashKeccak512Native => plan(false, Some(2u8), false, HashOuter::BitArray),
        HashVariant::HashKeccak512NativeRaw => plan(true, Some(2u8), true, HashOuter::BitArray),
        HashVariant::HashSha3_256Native => plan(false, Some(3u8), false, HashOuter::BitArray),
        HashVariant::HashSha3_256NativeRaw => plan(true, Some(3u8), true, HashOuter::BitArray),
        HashVariant::HashSha3_384Native => plan(false, Some(4u8), false, HashOuter::BitArray),
        HashVariant::HashSha3_384NativeRaw => plan(true, Some(4u8), true, HashOuter::BitArray),
        HashVariant::HashSha3_512Native => plan(false, Some(5u8), false, HashOuter::BitArray),
        HashVariant::HashSha3_512NativeRaw => plan(true, Some(5u8), true, HashOuter::BitArray),
    }
}

fn new_plan(raw: bool, digest: Option<u8>, byte_aligned: bool, outer: HashOuter) -> (p: HashPlan)
    ensures
        p == plan(raw, digest, byte_aligned, outer),
{
    HashPlan { raw, digest, byte_aligned, outer }
}

/// Whether the variant reads the bits or field elements of its input with the metadata of each
/// part: the variants that are neither raw nor unimplemented.
pub open spec fn reads_metadata(v: HashVariant) -> bool {
    !spec_hash_plan(v).raw && !(spec_hash_plan(v).outer is Unimplemented)
}

/// A hash variant is marked raw exactly when it reads the bare values of its input, without
/// metadata.
pub proof fn lemma_is_raw_matches_plan(v: HashVariant)
    ensures
        v.spec_is_raw() == spec_hash_plan(v).raw,
{
}

/// Returns the plan of the hash variant.
pub fn hash_plan(v: HashVariant) -> (r: HashPlan)
    ensures
        r == spec_hash_plan(v),
{
    match v {
        HashVariant::HashBHP256 => new_plan(false, None, false, HashOuter::Group(0u8)),
        HashVariant::HashBHP512 => new_plan(false, None, false, HashOuter::Group(1u8)),
        HashVariant::HashBHP768 => new_plan(false, None, false, HashOuter::Group(2u8)),
        HashVariant::HashBHP1024 => new_plan(false, None, false, HashOuter::Group(3u8)),
        HashVariant::HashKeccak256 => new_plan(false, Some(0u8), false, HashOuter::Group(0u8)),
        HashVariant::HashKeccak384 => new_plan(false, Some(1u8), false, HashOuter::Group(1u8)),
        HashVariant::HashKeccak512 => new_plan(false, Some(2u8), false, HashOuter::Group(1u8)),
        HashVariant::HashPED64 => new_plan(false, None, false, HashOuter::Group(4u8)),
        HashVariant::HashPED128 => new_plan(false, None, false, HashOuter::Group(5u8)),
        HashVariant::HashPSD2 => new_plan(false, None, false, HashOuter::Poseidon(0u8)),
        HashVariant::HashPSD4 => new_plan(false, None, false, HashOuter::Poseidon(1u8)),
        HashVariant::HashPSD8 => new_plan(false, None, false, HashOuter::Poseidon(2u8)),
        HashVariant::HashSha3_256 => new_plan(false, Some(3u8), false, HashOuter::Group(0u8)),
        HashVariant::HashSha3_384 => new_plan(false, Some(4u8), false, HashOuter::Group(1u8)),
        HashVariant::HashSha3_512 => new_plan(false, Some(5u8), false, HashOuter::Group(1u8)),
        HashVariant::HashManyPSD2 => new_plan(false, None, false, HashOuter::Unimplemented),
        HashVariant::HashManyPSD4 => new_plan(false, None, false, HashOuter::Unimplemented),
        HashVariant::HashManyPSD8 => new_plan(false, None, false, HashOuter::Unimplemented),
        HashVariant::HashBHP256Raw => new_plan(true, None, false, HashOuter::Group(0u8)),
        HashVariant::HashBHP512Raw => new_plan(true, None, false, HashOuter::Group(1u8)),
        HashVariant::HashBHP768Raw => new_plan(true, None, false, HashOuter::Group(2u8)),
        HashVariant::HashBHP1024Raw => new_plan(true, None, false, HashOuter::Group(3u8)),
        HashVariant::HashKeccak256Raw => new_plan(true, Some(0u8), true, HashOuter::Group(0u8)),
        HashVariant::HashKeccak384Raw => new_plan(true, Some(1u8), true, HashOuter::Group(1u8)),
        HashVariant::HashKeccak512Raw => new_plan(true, Some(2u8), true, HashOuter::Group(1u8)),
        HashVariant::HashPED64Raw => new_plan(true, None, false, HashOuter::Group(4u8)),
        HashVariant::HashPED128Raw => new_plan(true, None, false, HashOuter::Group(5u8)),
        HashVariant::HashPSD2Raw => new_plan(true, None, false, HashOuter::Poseidon(0u8)),
        HashVariant::HashPSD4Raw => new_plan(true, None, false, HashOuter::Poseidon(1u8)),
        HashVariant::HashPSD8Raw => new_plan(true, None, false, HashOuter::Poseidon(2u8)),
        HashVariant::HashSha3_256Raw => new_plan(true, Some(3u8), true, HashOuter::Group(0u8)),
        HashVariant::HashSha3_384Raw => new_plan(true, Some(4u8), true, HashOuter::Group(1u8)),
        HashVariant::HashSha3_512Raw => new_plan(true, Some(5u8), true, HashOuter::Group(1u8)),
        HashVariant::HashKeccak256Native => new_plan(false, Some(0u8), false, HashOuter::BitArray),
        HashVariant::HashKeccak256NativeRaw => new_plan(true, Some(0u8), true, HashOuter::BitArray),
        HashVariant::HashKeccak384Native => new_plan(false, Some(1u8), false, HashOuter::BitArray),
        HashVariant::HashKeccak384NativeRaw => new_plan(true, Some(1u8), true, HashOuter::BitArray),
        HashVariant::HashKeccak512Native => new_plan(false, Some(2u8), false, HashOuter::BitArray),
        HashVariant::HashKeccak512NativeRaw => new_plan(true, Some(2u8), true, HashOuter::BitArray),
        HashVariant::HashSha3_256Native => new_plan(false, Some(3u8), false, HashOuter::BitArray),
        HashVariant::HashSha3_256NativeRaw => new_plan(true, Some(3u8), true, HashOuter::BitArray),
        HashVariant::HashSha3_384Native => new_plan(false, Some(4u8), false, HashOuter::BitArray),
        HashVariant::HashSha3_384NativeRaw => new_plan(true, Some(4u8), true, HashOuter::BitArray),
        HashVariant::HashSha3_512Native => new_plan(false, Some(5u8), false, HashOuter::BitArray),
        HashVariant::HashSha3_512NativeRaw => new_plan(true, Some(5u8), true, HashOuter::BitArray),
    }
}

/// The group element, printed, that the bit hash at the position gives for the bits.
pub open spec fn spec_group_hash(k: u8, bits: Seq<bool>) -> Option<Seq<char>> {
    if k == 0 {
        console_hash_to_group_bhp256(bits)
    } else if k == 1 {
        console_hash_to_group_bhp512(bits)
    } else if k == 2 {
        console_hash_to_group_bhp768(bits)
    } else if k == 3 {
        console_hash_to_group_bhp1024(bits)
    } else if k == 4 {
        console_hash_to_group_ped64(bits)
    } else if k == 5 {
        console_hash_to_group_ped128(bits)
    } else {
        None
    }
}

/// The bits of the digest at the position for the bits.
pub open spec fn spec_digest(k: u8, bits: Seq<bool>) -> Option<Seq<bool>> {
    if k == 0 {
        console_hash_keccak256(bits)
    } else if k == 1 {
        console_hash_keccak384(bits)
    } else if k == 2 {
        console_hash_keccak512(bits)
    } else if k == 3 {
        console_hash_sha3_256(bits)
    } else if k == 4 {
        console_hash_sha3_384(bits)
    } else if k == 5 {
        console_hash_sha3_512(bits)
    } else {
        None
    }
}

/// The group element, printed, that the Poseidon hash at the position gives for the fields.
pub open spec fn spec_poseidon_group(k: u8, fields: Seq<Seq<char>>) -> Option<Seq<char>> {
    if k == 0 {
        console_hash_to_group_psd2(fields)
    } else if k == 1 {
        console_hash_to_group_psd4(fields)
    } else if k == 2 {
        console_hash_to_group_psd8(fields)
    } else {
        None
    }
}

/// The field element, printed, that the Poseidon hash at the position gives for the fields.
pub open spec fn spec_poseidon_field(k: u8, fields: Seq<Seq<char>>) -> Option<Seq<char>> {
    if k == 0 {
        console_hash_psd2(fields)
    } else if k == 1 {
        console_hash_psd4(fields)
    } else if k == 2 {
        console_hash_psd8(fields)
    } else {
        None
    }
}

/// Console's field elements of the plaintext written in the text: of its bare values where
/// `raw`, else with metadata.
pub open spec fn value_fields(text: Seq<char>, raw: bool) -> Option<Seq<Seq<char>>> {
    if raw {
        console_plaintext_fields_raw(text)
    } else {
        console_plaintext_fields(text)
    }
}

/// A value's raw field elements are console's `to_fields_raw` of it, its other field elements
/// console's `to_fields`.
pub proof fn lemma_value_fields(text: Seq<char>)
    ensures
        value_fields(text, true) == console_plaintext_fields_raw(text),
        value_fields(text, false) == console_plaintext_fields(text),
{
}

/// The bits that the plan hashes last: the input's bits, which must fill whole bytes where the
/// plan asks it, after the plan's digest, if any.
pub open spec fn plan_bits(p: HashPlan, input: PlaintextValueView) -> Option<Seq<bool>> {
    match value_bits(value_text(input), p.raw) {
        None => None,
        Some(b) => if p.byte_aligned && b.len() % 8 != 0 {
            None
        } else {
            match p.digest {
                Some(k) => spec_digest(k, b),
                None => Some(b),
            }
        },
    }
}

/// The literal, printed, cast without loss checks to the type.
pub open spec fn cast_to(out: Option<Seq<char>>, l: LiteralType) -> Option<PlaintextValueView> {
    match out {
        None => None,
        Some(t) => match console_cast_lossy(t, literal_type_id(l)) {
            Some(c) => Some(PlaintextValueView::Literal(c)),
            None => None,
        },
    }
}

/// What the plan makes of the value for a destination of the type.
pub open spec fn spec_run_hash(p: HashPlan, input: PlaintextValueView, dest: PlaintextTypeView) -> Option<
    PlaintextValueView,
> {
    match p.outer {
        HashOuter::Unimplemented => None,
        HashOuter::BitArray => match dest {
            PlaintextTypeView::Array(_, n) => match plan_bits(p, input) {
                Some(d) => if d.len() == n {
                    Some(bit_array_value(d))
                } else {
                    None
                },
                None => None,
            },
            _ => None,
        },
        HashOuter::Group(k) => match dest {
            PlaintextTypeView::Literal(l) => match plan_bits(p, input) {
                Some(b) => cast_to(spec_group_hash(k, b), l),
                None => None,
            },
            _ => None,
        },
        HashOuter::Poseidon(k) => match dest {
            PlaintextTypeView::Literal(l) => match value_fields(value_text(input), p.raw) {
                Some(f) => if l == LiteralType::Address || l == LiteralType::Group {
                    cast_to(spec_poseidon_group(k, f), l)
                } else {
                    cast_to(spec_poseidon_field(k, f), l)
                },
                None => None,
            },
            _ => None,
        },
    }
}

/// What the hash variant makes of the value for a destination of the type.
pub open spec fn spec_evaluate_hash(v: HashVariant, input: PlaintextValueView, dest: PlaintextTypeView) -> Option<
    PlaintextValueView,
> {
    spec_run_hash(spec_hash_plan(v), input, dest)
}

fn group_hash(k: u8, bits: &[bool]) -> (r: Option<String>)
    ensures
        spec_group_hash(k, bits@) == match r {
            Some(t) => Some(t@),
            None => None::<Seq<char>>,
        },
{
    if k == 0 {
        hash_to_group_bhp256(bits)
    } else if k == 1 {
        hash_to_group_bhp512(bits)
    } else if k == 2 {
        hash_to_group_bhp768(bits)
    } else if k == 3 {
        hash_to_group_bhp1024(bits)
    } else if k == 4 {
        hash_to_group_ped64(bits)
    } else if k == 5 {
        hash_to_group_ped128(bits)
    } else {
        None
    }
}

pub(crate) fn digest(k: u8, bits: &[bool]) -> (r: Option<Vec<bool>>)
    ensures
        spec_digest(k, bits@) == match r {
            Some(b) => Some(b@),
            None => None::<Seq<bool>>,
        },
{
    if k == 0 {
        hash_keccak256(bits)
    } else if k == 1 {
        hash_keccak384(bits)
    } else if k == 2 {
        hash_keccak512(bits)
    } else if k == 3 {
        hash_sha3_256(bits)
    } else if k == 4 {
        hash_sha3_384(bits)
    } else if k == 5 {
        hash_sha3_512(bits)
    } else {
        None
    }
}

fn poseidon_group(k: u8, fields: &Vec<String>) -> (r: Option<String>)
    ensures
        spec_poseidon_group(k, texts_view(fields@)) == match r {
            Some(t) => Some(t@),
            None => None::<Seq<char>>,
        },
{
    if k == 0 {
        hash_to_group_psd2(fields)
    } else if k == 1 {
        hash_to_group_psd4(fields)
    } else if k == 2 {
        hash_to_group_psd8(fields)
    } else {
        None
    }
}

fn poseidon_field(k: u8, fields: &Vec<String>) -> (r: Option<String>)
    ensures
        spec_poseidon_field(k, texts_view(fields@)) == match r {
            Some(t) => Some(t@),
            None => None::<Seq<char>>,
        },
{
    if k == 0 {
        hash_psd2(fields)
    } else if k == 1 {
        hash_psd4(fields)
    } else if k == 2 {
        hash_psd8(fields)
    } else {
        None
    }
}

fn fields_of_value(v: &PlaintextValue, raw: bool) -> (r: Option<Vec<String>>)
    requires
        !raw ==> value_fits(v@),
    ensures
        value_fields(value_text(v@), raw) == match r {
            Some(f) => Some(texts_view(f@)),
            None => None::<Seq<Seq<char>>>,
        },
{
    let text = v.to_string();
    if raw {
        plaintext_fields_raw(text.as_str())
    } else {
        assert(plaintext_bits_fit(text@, fit_depth()));
        plaintext_fields(text.as_str())
    }
}

fn bits_for_plan(p: HashPlan, input: &PlaintextValue) -> (r: Option<Vec<bool>>)
    requires
        !p.raw ==> value_fits(input@),
    ensures
        plan_bits(p, input@) == match r {
            Some(b) => Some(b@),
            None => None::<Seq<bool>>,
        },
{
    let b = match bits_of_value(input, p.raw) {
        Some(b) => b,
        None => return None,
    };
    if p.byte_aligned && b.len() % 8 != 0 {
        return None;
    }
    match p.digest {
        Some(k) => digest(k, &b),
        None => Some(b),
    }
}

fn cast_result(out: Option<String>, l: LiteralType) -> (r: Option<PlaintextValue>)
    ensures
        opt_value_view(r) == cast_to(
            match out {
                Some(t) => Some(t@),
                None => None::<Seq<char>>,
            },
            l,
        ),
{
    match out {
        None => None,
        Some(t) => match cast_lossy(t.as_str(), l.type_id()) {
            Some(c) => Some(PlaintextValue::Literal(c)),
            None => None,
        },
    }
}

/// Hashes the value as the hash variant does, for a destination of the given type: a literal
/// destination receives the hash (a group element, or a field element for Poseidon hashes into
/// other types) cast to its type, an array destination receives the bits of a native digest;
/// `None` where the destination does not fit the variant, the `hash_many` variants, or where
/// console refuses.
pub fn evaluate_hash(variant: HashVariant, input: &PlaintextValue, destination_type: &PlaintextType) -> (r: Option<
    PlaintextValue,
>)
    requires
        reads_metadata(variant) ==> value_fits(input@),
    ensures
        opt_value_view(r) == spec_evaluate_hash(variant, input@, destination_type@),
{
    let p = hash_plan(variant);
    match p.outer {
        HashOuter::Unimplemented => None,
        HashOuter::BitArray => match destination_type {
            PlaintextType::Array(_, n) => match bits_for_plan(p, input) {
                Some(d) => from_bit_array(&d, *n),
                None => None,
            },
            _ => None,
        },
        HashOuter::Group(k) => match destination_type {
            PlaintextType::Literal(l) => match bits_for_plan(p, input) {
                Some(b) => cast_result(group_hash(k, &b), *l),
                None => None,
            },
            _ => None,
        },
        HashOuter::Poseidon(k) => match destination_type {
            PlaintextType::Literal(l) => match fields_of_value(input, p.raw) {
                Some(f) => {
                    let to_group = match l {
                        LiteralType::Address | LiteralType::Group => true,
                        _ => false,
                    };
                    if to_group {
                        cast_result(poseidon_group(k, &f), *l)
                    } else {
                        cast_result(poseidon_field(k, &f), *l)
                    }
                },
                None => None,
            },
            _ => None,
        },
    }
}

impl HashInstruction {
    /// Evaluates the instruction on the value of its operand and returns the value for its
    /// destination: the hash of the value, as its variant computes it, for its destination type;
    /// `None` where the variant reads the bits of the value with metadata and console could not
    /// write them.
    pub fn evaluate(&self, input: &PlaintextValue) -> (r: Option<PlaintextValue>)
        ensures
            opt_value_view(r) == if reads_metadata(self@.variant) && !value_fits(input@) {
                None
            } else {
                spec_evaluate_hash(self@.variant, input@, self@.destination_type)
            },
    {
        let p = hash_plan(self.variant);
        let reads = match p.outer {
            HashOuter::Unimplemented => false,
            _ => !p.raw,
        };
        if reads && !input.bits_fit() {
            return None;
        }
        evaluate_hash(self.variant, input, &self.destination_type)
    }
}


/// The bits of the value that a hash reads: its bare values where `raw`, else its bits with the
/// metadata of each part, as console gives them; `None` where console gives none or, if
/// `aligned`, where they do not fill whole bytes.
pub open spec fn input_bits(v: PlaintextValueView, raw: bool, aligned: bool) -> Option<Seq<bool>> {
    match value_bits(value_text(v), raw) {
        None => None,
        Some(b) => if aligned && b.len() % 8 != 0 {
            None
        } else {
            Some(b)
        },
    }
}

/// Each hash variant that hashes bits to a group element applies the hashes its opcode names:
/// `hash.bhp256`, `hash.bhp512`, `hash.bhp768`, `hash.bhp1024`, `hash.ped64` and `hash.ped128`
/// hash the value's bits with metadata to a group element with that hash; `hash.keccak256` and
/// `hash.sha3_256` first take that digest of the bits and hash it with BHP-256, the 384- and
/// 512-bit digests with BHP-512. The result is cast without loss checks to the destination's
/// literal type; a destination that is not a literal type (`t`) gets nothing.
pub proof fn lemma_hash_to_group_variants(v: PlaintextValueView, l: LiteralType, t: PlaintextTypeView)
    requires
        !(t is Literal),
    ensures
        spec_evaluate_hash(HashVariant::HashBHP256, v, PlaintextTypeView::Literal(l)) == match input_bits(v, false, false) {
            None => None,
            Some(b) => cast_to(console_hash_to_group_bhp256(b), l),
        },
        spec_evaluate_hash(HashVariant::HashBHP256, v, t) is None,
        spec_evaluate_hash(HashVariant::HashBHP512, v, PlaintextTypeView::Literal(l)) == match input_bits(v, false, false) {
            None => None,
            Some(b) => cast_to(console_hash_to_group_bhp512(b), l),
        },
        spec_evaluate_hash(HashVariant::HashBHP512, v, t) is None,
        spec_evaluate_hash(HashVariant::HashBHP768, v, PlaintextTypeView::Literal(l)) == match input_bits(v, false, false) {
            None => None,
            Some(b) => cast_to(console_hash_to_group_bhp768(b), l),
        },
        spec_evaluate_hash(HashVariant::HashBHP768, v, t) is None,
        spec_evaluate_hash(HashVariant::HashBHP1024, v, PlaintextTypeView::Literal(l)) == match input_bits(v, false, false) {
            None => None,
            Some(b) => cast_to(console_hash_to_group_bhp1024(b), l),
        },
        spec_evaluate_hash(HashVariant::HashBHP1024, v, t) is None,
        spec_evaluate_hash(HashVariant::HashPED64, v, PlaintextTypeView::Literal(l)) == match input_bits(v, false, false) {
            None => None,
            Some(b) => cast_to(console_hash_to_group_ped64(b), l),
        },
        spec_evaluate_hash(HashVariant::HashPED64, v, t) is None,
        spec_evaluate_hash(HashVariant::HashPED128, v, PlaintextTypeView::Literal(l)) == match input_bits(v, false, false) {
            None => None,
            Some(b) => cast_to(console_hash_to_group_ped128(b), l),
        },
        spec_evaluate_hash(HashVariant::HashPED128, v, t) is None,
        spec_evaluate_hash(HashVariant::HashKeccak256, v, PlaintextTypeView::Literal(l)) == match input_bits(v, false, false) {
            None => None,
            Some(b) => match console_hash_keccak256(b) {
                None => None,
                Some(d) => cast_to(console_hash_to_group_bhp256(d), l),
            },
        },
        spec_evaluate_hash(HashVariant::HashKeccak256, v, t) is None,
        spec_evaluate_hash(HashVariant::HashKeccak384, v, PlaintextTypeView::Literal(l)) == match input_bits(v, false, false) {
            None => None,
            Some(b) => match console_hash_keccak384(b) {
                None => None,
                Some(d) => cast_to(console_hash_to_group_bhp512(d), l),
            },
        },
        spec_evaluate_hash(HashVariant::HashKeccak384, v, t) is None,
        spec_evaluate_hash(HashVariant::HashKeccak512, v, PlaintextTypeView::Literal(l)) == match input_bits(v, false, false) {
            None => None,
            Some(b) => match console_hash_keccak512(b) {
                None => None,
                Some(d) => cast_to(console_hash_to_group_bhp512(d), l),
            },
        },
        spec_evaluate_hash(HashVariant::HashKeccak512, v, t) is None,
        spec_evaluate_hash(HashVariant::HashSha3_256, v, PlaintextTypeView::Literal(l)) == match input_bits(v, false, false) {
            None => None,
            Some(b) => match console_hash_sha3_256(b) {
                None => None,
                Some(d) => cast_to(console_hash_to_group_bhp256(d), l),
            },
        },
        spec_evaluate_hash(HashVariant::HashSha3_256, v, t) is None,
        spec_evaluate_hash(HashVariant::HashSha3_384, v, PlaintextTypeView::Literal(l)) == match input_bits(v, false, false) {
            None => None,
            Some(b) => match console_hash_sha3_384(b) {
                None => None,
                Some(d) => cast_to(console_hash_to_group_bhp512(d), l),
            },
        },
        spec_evaluate_hash(HashVariant::HashSha3_384, v, t) is None,
        spec_evaluate_hash(HashVariant::HashSha3_512, v, PlaintextTypeView::Literal(l)) == match input_bits(v, false, false) {
            None => None,
            Some(b) => match console_hash_sha3_512(b) {
                None => None,
                Some(d) => cast_to(console_hash_to_group_bhp512(d), l),
            },
        },
        spec_evaluate_hash(HashVariant::HashSha3_512, v, t) is None,
{
}

/// The `.raw` forms of the same variants hash the bits of the value's bare values in the same
/// way; the Keccak and SHA-3 forms refuse bits that do not fill whole bytes.
pub proof fn lemma_hash_to_group_raw_variants(v: PlaintextValueView, l: LiteralType, t: PlaintextTypeView)
    requires
        !(t is Literal),
    ensures
        spec_evaluate_hash(HashVariant::HashBHP256Raw, v, PlaintextTypeView::Literal(l)) == match input_bits(v, true, false) {
            None => None,
            Some(b) => cast_to(console_hash_to_group_bhp256(b), l),
        },
        spec_evaluate_hash(HashVariant::HashBHP256Raw, v, t) is None,
        spec_evaluate_hash(HashVariant::HashBHP512Raw, v, PlaintextTypeView::Literal(l)) == match input_bits(v, true, false) {
            None => None,
            Some(b) => cast_to(console_hash_to_group_bhp512(b), l),
        },
        spec_evaluate_hash(HashVariant::HashBHP512Raw, v, t) is None,
        spec_evaluate_hash(HashVariant::HashBHP768Raw, v, PlaintextTypeView::Literal(l)) == match input_bits(v, true, false) {
            None => None,
            Some(b) => cast_to(console_hash_to_group_bhp768(b), l),
        },
        spec_evaluate_hash(HashVariant::HashBHP768Raw, v, t) is None,
        spec_evaluate_hash(HashVariant::HashBHP1024Raw, v, PlaintextTypeView::Literal(l)) == match input_bits(v, true, false) {
            None => None,
            Some(b) => cast_to(console_hash_to_group_bhp1024(b), l),
        },
        spec_evaluate_hash(HashVariant::HashBHP1024Raw, v, t) is None,
        spec_evaluate_hash(HashVariant::HashPED64Raw, v, PlaintextTypeView::Literal(l)) == match input_bits(v, true, false) {
            None => None,
            Some(b) => cast_to(console_hash_to_group_ped64(b), l),
        },
        spec_evaluate_hash(HashVariant::HashPED64Raw, v, t) is None,
        spec_evaluate_hash(HashVariant::HashPED128Raw, v, PlaintextTypeView::Literal(l)) == match input_bits(v, true, false) {
            None => None,
            Some(b) => cast_to(console_hash_to_group_ped128(b), l),
        },
        spec_evaluate_hash(HashVariant::HashPED128Raw, v, t) is None,
        spec_evaluate_hash(HashVariant::HashKeccak256Raw, v, PlaintextTypeView::Literal(l)) == match input_bits(v, true, true) {
            None => None,
            Some(b) => match console_hash_keccak256(b) {
                None => None,
                Some(d) => cast_to(console_hash_to_group_bhp256(d), l),
            },
        },
        spec_evaluate_hash(HashVariant::HashKeccak256Raw, v, t) is None,
        spec_evaluate_hash(HashVariant::HashKeccak384Raw, v, PlaintextTypeView::Literal(l)) == match input_bits(v, true, true) {
            None => None,
            Some(b) => match console_hash_keccak384(b) {
                None => None,
                Some(d) => cast_to(console_hash_to_group_bhp512(d), l),
            },
        },
        spec_evaluate_hash(HashVariant::HashKeccak384Raw, v, t) is None,
        spec_evaluate_hash(HashVariant::HashKeccak512Raw, v, PlaintextTypeView::Literal(l)) == match input_bits(v, true, true) {
            None => None,
            Some(b) => match console_hash_keccak512(b) {
                None => None,
                Some(d) => cast_to(console_hash_to_group_bhp512(d), l),
            },
        },
        spec_evaluate_hash(HashVariant::HashKeccak512Raw, v, t) is None,
        spec_evaluate_hash(HashVariant::HashSha3_256Raw, v, PlaintextTypeView::Literal(l)) == match input_bits(v, true, true) {
            None => None,
            Some(b) => match console_hash_sha3_256(b) {
                None => None,
                Some(d) => cast_to(console_hash_to_group_bhp256(d), l),
            },
        },
        spec_evaluate_hash(HashVariant::HashSha3_256Raw, v, t) is None,
        spec_evaluate_hash(HashVariant::HashSha3_384Raw, v, PlaintextTypeView::Literal(l)) == match input_bits(v, true, true) {
            None => None,
            Some(b) => match console_hash_sha3_384(b) {
                None => None,
                Some(d) => cast_to(console_hash_to_group_bhp512(d), l),
            },
        },
        spec_evaluate_hash(HashVariant::HashSha3_384Raw, v, t) is None,
        spec_evaluate_hash(HashVariant::HashSha3_512Raw, v, PlaintextTypeView::Literal(l)) == match input_bits(v, true, true) {
            None => None,
            Some(b) => match console_hash_sha3_512(b) {
                None => None,
                Some(d) => cast_to(console_hash_to_group_bhp512(d), l),
            },
        },
        spec_evaluate_hash(HashVariant::HashSha3_512Raw, v, t) is None,
{
}

/// `hash.psd2`, `hash.psd4` and `hash.psd8` (and their `.raw` forms, on the bare values) hash
/// the value's field elements with that Poseidon hash: to a group element for an address or
/// group destination, else to a field element, cast without loss checks to the destination's
/// literal type.
pub proof fn lemma_poseidon_variants(v: PlaintextValueView, l: LiteralType, t: PlaintextTypeView)
    requires
        !(t is Literal),
    ensures
        spec_evaluate_hash(HashVariant::HashPSD2, v, PlaintextTypeView::Literal(l)) == match value_fields(value_text(v), false) {
            None => None,
            Some(f) => if l == LiteralType::Address || l == LiteralType::Group {
                cast_to(console_hash_to_group_psd2(f), l)
            } else {
                cast_to(console_hash_psd2(f), l)
            },
        },
        spec_evaluate_hash(HashVariant::HashPSD2, v, t) is None,
        spec_evaluate_hash(HashVariant::HashPSD4, v, PlaintextTypeView::Literal(l)) == match value_fields(value_text(v), false) {
            None => None,
            Some(f) => if l == LiteralType::Address || l == LiteralType::Group {
                cast_to(console_hash_to_group_psd4(f), l)
            } else {
                cast_to(console_hash_psd4(f), l)
            },
        },
        spec_evaluate_hash(HashVariant::HashPSD4, v, t) is None,
        spec_evaluate_hash(HashVariant::HashPSD8, v, PlaintextTypeView::Literal(l)) == match value_fields(value_text(v), false) {
            None => None,
            Some(f) => if l == LiteralType::Address || l == LiteralType::Group {
                cast_to(console_hash_to_group_psd8(f), l)
            } else {
                cast_to(console_hash_psd8(f), l)
            },
        },
        spec_evaluate_hash(HashVariant::HashPSD8, v, t) is None,
        spec_evaluate_hash(HashVariant::HashPSD2Raw, v, PlaintextTypeView::Literal(l)) == match value_fields(value_text(v), true) {
            None => None,
            Some(f) => if l == LiteralType::Address || l == LiteralType::Group {
                cast_to(console_hash_to_group_psd2(f), l)
            } else {
                cast_to(console_hash_psd2(f), l)
            },
        },
        spec_evaluate_hash(HashVariant::HashPSD2Raw, v, t) is None,
        spec_evaluate_hash(HashVariant::HashPSD4Raw, v, PlaintextTypeView::Literal(l)) == match value_fields(value_text(v), true) {
            None => None,
            Some(f) => if l == LiteralType::Address || l == LiteralType::Group {
                cast_to(console_hash_to_group_psd4(f), l)
            } else {
                cast_to(console_hash_psd4(f), l)
            },
        },
        spec_evaluate_hash(HashVariant::HashPSD4Raw, v, t) is None,
        spec_evaluate_hash(HashVariant::HashPSD8Raw, v, PlaintextTypeView::Literal(l)) == match value_fields(value_text(v), true) {
            None => None,
            Some(f) => if l == LiteralType::Address || l == LiteralType::Group {
                cast_to(console_hash_to_group_psd8(f), l)
            } else {
                cast_to(console_hash_psd8(f), l)
            },
        },
        spec_evaluate_hash(HashVariant::HashPSD8Raw, v, t) is None,
{
}

/// The `.native` variants give the bits of the digest their opcode names (Keccak-256,
/// Keccak-384, Keccak-512, SHA3-256, SHA3-384, SHA3-512) of the value's bits with metadata (of
/// its bare values, which must fill whole bytes, for `.native.raw`), as an array of booleans
/// whose length must be the digest's; a destination that is not an array (`t`) gets nothing.
pub proof fn lemma_native_variants(v: PlaintextValueView, e: Box<PlaintextTypeView>, n: u32, t: PlaintextTypeView)
    requires
        !(t is Array),
    ensures
        spec_evaluate_hash(HashVariant::HashKeccak256Native, v, PlaintextTypeView::Array(e, n)) == match input_bits(v, false, false) {
            None => None,
            Some(b) => match console_hash_keccak256(b) {
                None => None,
                Some(d) => if d.len() == n {
                    Some(bit_array_value(d))
                } else {
                    None
                },
            },
        },
        spec_evaluate_hash(HashVariant::HashKeccak256Native, v, t) is None,
        spec_evaluate_hash(HashVariant::HashKeccak256NativeRaw, v, PlaintextTypeView::Array(e, n)) == match input_bits(v, true, true) {
            None => None,
            Some(b) => match console_hash_keccak256(b) {
                None => None,
                Some(d) => if d.len() == n {
                    Some(bit_array_value(d))
                } else {
                    None
                },
            },
        },
        spec_evaluate_hash(HashVariant::HashKeccak256NativeRaw, v, t) is None,
        spec_evaluate_hash(HashVariant::HashKeccak384Native, v, PlaintextTypeView::Array(e, n)) == match input_bits(v, false, false) {
            None => None,
            Some(b) => match console_hash_keccak384(b) {
                None => None,
                Some(d) => if d.len() == n {
                    Some(bit_array_value(d))
                } else {
                    None
                },
            },
        },
        spec_evaluate_hash(HashVariant::HashKeccak384Native, v, t) is None,
        spec_evaluate_hash(HashVariant::HashKeccak384NativeRaw, v, PlaintextTypeView::Array(e, n)) == match input_bits(v, true, true) {
            None => None,
            Some(b) => match console_hash_keccak384(b) {
                None => None,
                Some(d) => if d.len() == n {
                    Some(bit_array_value(d))
                } else {
                    None
                },
            },
        },
        spec_evaluate_hash(HashVariant::HashKeccak384NativeRaw, v, t) is None,
        spec_evaluate_hash(HashVariant::HashKeccak512Native, v, PlaintextTypeView::Array(e, n)) == match input_bits(v, false, false) {
            None => None,
            Some(b) => match console_hash_keccak512(b) {
                None => None,
                Some(d) => if d.len() == n {
                    Some(bit_array_value(d))
                } else {
                    None
                },
            },
        },
        spec_evaluate_hash(HashVariant::HashKeccak512Native, v, t) is None,
        spec_evaluate_hash(HashVariant::HashKeccak512NativeRaw, v, PlaintextTypeView::Array(e, n)) == match input_bits(v, true, true) {
            None => None,
            Some(b) => match console_hash_keccak512(b) {
                None => None,
                Some(d) => if d.len() == n {
                    Some(bit_array_value(d))
                } else {
                    None
                },
            },
        },
        spec_evaluate_hash(HashVariant::HashKeccak512NativeRaw, v, t) is None,
        spec_evaluate_hash(HashVariant::HashSha3_256Native, v, PlaintextTypeView::Array(e, n)) == match input_bits(v, false, false) {
            None => None,
            Some(b) => match console_hash_sha3_256(b) {
                None => None,
                Some(d) => if d.len() == n {
                    Some(bit_array_value(d))
                } else {
                    None
                },
            },
        },
        spec_evaluate_hash(HashVariant::HashSha3_256Native, v, t) is None,
        spec_evaluate_hash(HashVariant::HashSha3_256NativeRaw, v, PlaintextTypeView::Array(e, n)) == match input_bits(v, true, true) {
            None => None,
            Some(b) => match console_hash_sha3_256(b) {
                None => None,
                Some(d) => if d.len() == n {
                    Some(bit_array_value(d))
                } else {
                    None
                },
            },
        },
        spec_evaluate_hash(HashVariant::HashSha3_256NativeRaw, v, t) is None,
        spec_evaluate_hash(HashVariant::HashSha3_384Native, v, PlaintextTypeView::Array(e, n)) == match input_bits(v, false, false) {
            None => None,
            Some(b) => match console_hash_sha3_384(b) {
                None => None,
                Some(d) => if d.len() == n {
                    Some(bit_array_value(d))
                } else {
                    None
                },
            },
        },
        spec_evaluate_hash(HashVariant::HashSha3_384Native, v, t) is None,
        spec_evaluate_hash(HashVariant::HashSha3_384NativeRaw, v, PlaintextTypeView::Array(e, n)) == match input_bits(v, true, true) {
            None => None,
            Some(b) => match console_hash_sha3_384(b) {
                None => None,
                Some(d) => if d.len() == n {
                    Some(bit_array_value(d))
                } else {
                    None
                },
            },
        },
        spec_evaluate_hash(HashVariant::HashSha3_384NativeRaw, v, t) is None,
        spec_evaluate_hash(HashVariant::HashSha3_512Native, v, PlaintextTypeView::Array(e, n)) == match input_bits(v, false, false) {
            None => None,
            Some(b) => match console_hash_sha3_512(b) {
                None => None,
                Some(d) => if d.len() == n {
                    Some(bit_array_value(d))
                } else {
                    None
                },
            },
        },
        spec_evaluate_hash(HashVariant::HashSha3_512Native, v, t) is None,
        spec_evaluate_hash(HashVariant::HashSha3_512NativeRaw, v, PlaintextTypeView::Array(e, n)) == match input_bits(v, true, true) {
            None => None,
            Some(b) => match console_hash_sha3_512(b) {
                None => None,
                Some(d) => if d.len() == n {
                    Some(bit_array_value(d))
                } else {
                    None
                },
            },
        },
        spec_evaluate_hash(HashVariant::HashSha3_512NativeRaw, v, t) is None,
{
}

/// The `hash_many` variants are not implemented: they give nothing.
pub proof fn lemma_hash_many_unimplemented(v: PlaintextValueView, t: PlaintextTypeView)
    ensures
        spec_evaluate_hash(HashVariant::HashManyPSD2, v, t) is None,
        spec_evaluate_hash(HashVariant::HashManyPSD4, v, t) is None,
        spec_evaluate_hash(HashVariant::HashManyPSD8, v, t) is None,
{
}

} // verus!
