//! The `serialize` and `deserialize` instructions: turn a value into an array of bits and back,
//! as in `serialize.bits r0 (u64) into r1 ([boolean; 64u32])` and
//! `deserialize.bits r0 ([boolean; 64u32]) into r1 (u64)`.
use vstd::prelude::*;

use crate::call_dynamic::{operands_view, spaced_operands, write_spaced_operands};
use crate::console::console_whitespace;
use crate::instruction::{into_register, spec_into_register, spec_ws_operands_exact, ws_operands_exact};
use crate::console::console_read_plaintext_type;
use crate::op_bytes::{
    append_bytes, left, left_of, lemma_left, normal_operands, normal_plaintext_type, normal_register, read_array_type,
    read_operands, read_plaintext_type, read_register, spec_array_bytes, spec_operands_bytes, spec_plaintext_bytes,
    spec_read_array_type, spec_read_operands, spec_read_register, spec_register_bytes, write_array_type,
    write_operands, write_plaintext_type, write_register,
};
use crate::operand::{tail, Operand, OperandView, Register, RegisterView};
use crate::plaintext_bits::{
    size_of_type, type_size, as_bit_array, evaluate_deserialize, evaluate_serialize, opt_value_view, serialize_bits, spec_as_bit_array, spec_decode,
    spec_serialize_bits, value_fits, PlaintextValue, StructTable,
};
use crate::plaintext::{parse_plaintext_type, plaintext_type_text, same_plaintext_type, spec_parse_plaintext_type};
use crate::syntax::{after, tail_of};
use crate::text::{chars_of, has_prefix, push_all, starts_with, string_of};
use crate::types::{
    contains_external_struct, copy_plaintext_type, innermost, plaintext_contains_external_struct,
    register_types_view, LiteralType, PlaintextType, PlaintextTypeView, RegisterType, RegisterTypeView, TypeError,
};
use crate::variants::{spec_deserialize_opcode, spec_serialize_opcode, DeserializeVariant, SerializeVariant};

verus! {

/// The literal types that may be turned into bits and back: all but signatures and strings.
pub open spec fn bits_literal(l: LiteralType) -> bool {
    l != LiteralType::Signature && l != LiteralType::String
}

/// The types that may be turned into bits and back: such a literal type, or an array whose
/// innermost element type is one.
pub open spec fn bits_value_type(t: PlaintextTypeView) -> bool {
    match innermost(t) {
        PlaintextTypeView::Literal(l) => bits_literal(l),
        _ => false,
    }
}

/// The type is an array of booleans.
pub open spec fn is_bit_array(t: PlaintextTypeView) -> bool {
    match t {
        PlaintextTypeView::Array(e, _) => *e == PlaintextTypeView::Literal(LiteralType::Boolean),
        _ => false,
    }
}

/// The length of an array type.
pub open spec fn array_length(t: PlaintextTypeView) -> u32 {
    match t {
        PlaintextTypeView::Array(_, n) => n,
        _ => 0,
    }
}

fn bits_literal_of(l: LiteralType) -> (r: bool)
    ensures
        r == bits_literal(l),
{
    l != LiteralType::Signature && l != LiteralType::String
}

fn bits_value(t: &PlaintextType) -> (r: bool)
    ensures
        r == bits_value_type(t@),
{
    match crate::types::innermost_of(t) {
        PlaintextType::Literal(l) => bits_literal_of(*l),
        _ => false,
    }
}

pub(crate) fn bit_array(t: &PlaintextType) -> (r: bool)
    ensures
        r == is_bit_array(t@),
{
    match t {
        PlaintextType::Array(e, _) => crate::types::is_literal(e, LiteralType::Boolean),
        _ => false,
    }
}

pub(crate) fn length_of(t: &PlaintextType) -> (r: u32)
    ensures
        r == array_length(t@),
{
    match t {
        PlaintextType::Array(_, n) => *n,
        _ => 0,
    }
}

/// Why the parts do not make a `serialize` instruction, if they do not: it takes one operand
/// of a type that may be turned into bits, and produces an array of booleans.
pub open spec fn serialize_error(
    operands: Seq<OperandView>,
    operand_type: PlaintextTypeView,
    destination_type: PlaintextTypeView,
) -> Option<TypeError> {
    if operands.len() != 1 {
        Some(TypeError::OperandCount)
    } else if !bits_value_type(operand_type) {
        Some(TypeError::OperandType)
    } else if !is_bit_array(destination_type) {
        Some(TypeError::DestinationType)
    } else {
        None
    }
}

/// Why the parts do not make a `deserialize` instruction, if they do not: it takes one
/// operand, an array of booleans, and produces a type that may be turned into bits.
pub open spec fn deserialize_error(
    operands: Seq<OperandView>,
    operand_type: PlaintextTypeView,
    destination_type: PlaintextTypeView,
) -> Option<TypeError> {
    if operands.len() != 1 {
        Some(TypeError::OperandCount)
    } else if !is_bit_array(operand_type) {
        Some(TypeError::OperandType)
    } else if !bits_value_type(destination_type) {
        Some(TypeError::DestinationType)
    } else {
        None
    }
}

/// The mathematical value of a `serialize` or `deserialize` instruction.
pub ghost struct BitsView {
    pub variant: u8,
    pub operands: Seq<OperandView>,
    pub operand_type: PlaintextTypeView,
    pub destination: RegisterView,
    pub destination_type: PlaintextTypeView,
}

/// A `serialize` instruction: turns its operand into an array of bits.
#[derive(Debug, PartialEq, Eq)]
pub struct SerializeInstruction {
    variant: u8,
    operands: Vec<Operand>,
    operand_type: PlaintextType,
    destination: Register,
    destination_type: PlaintextType,
}

/// A `deserialize` instruction: turns an array of bits into a value of the destination type.
#[derive(Debug, PartialEq, Eq)]
pub struct DeserializeInstruction {
    variant: u8,
    operands: Vec<Operand>,
    operand_type: PlaintextType,
    destination: Register,
    destination_type: PlaintextType,
}

impl View for SerializeInstruction {
    type V = BitsView;

    closed spec fn view(&self) -> BitsView {
        BitsView {
            variant: self.variant,
            operands: operands_view(self.operands@),
            operand_type: self.operand_type@,
            destination: self.destination@,
            destination_type: self.destination_type@,
        }
    }
}

impl View for DeserializeInstruction {
    type V = BitsView;

    closed spec fn view(&self) -> BitsView {
        BitsView {
            variant: self.variant,
            operands: operands_view(self.operands@),
            operand_type: self.operand_type@,
            destination: self.destination@,
            destination_type: self.destination_type@,
        }
    }
}

/// Why a `serialize` instruction refuses the input types, if it does: it takes one input of
/// its operand type, whose size in bits (`size_in_bits`, as the program's types give it, raw
/// or not as the variant reads it) is the length of the destination array.
pub open spec fn serialize_output_error(v: BitsView, ts: Seq<RegisterTypeView>, size_in_bits: Option<u64>) -> Option<
    TypeError,
> {
    if serialize_error(v.operands, v.operand_type, v.destination_type) is Some {
        serialize_error(v.operands, v.operand_type, v.destination_type)
    } else if ts.len() != 1 {
        Some(TypeError::InputCount(1))
    } else if ts[0] != RegisterTypeView::Plaintext(v.operand_type) {
        Some(TypeError::InputType(0))
    } else if size_in_bits is None {
        Some(TypeError::UnknownSize)
    } else if size_in_bits->0 != array_length(v.destination_type) {
        Some(TypeError::SizeMismatch)
    } else {
        None
    }
}

/// Why a `deserialize` instruction refuses the input types, if it does: it takes one input of
/// its operand type, and the size in bits of its destination type (`size_in_bits`, as the
/// program's types give it, raw or not as the variant reads it) is the length of that array.
pub open spec fn deserialize_output_error(v: BitsView, ts: Seq<RegisterTypeView>, size_in_bits: Option<u64>) -> Option<
    TypeError,
> {
    if deserialize_error(v.operands, v.operand_type, v.destination_type) is Some {
        deserialize_error(v.operands, v.operand_type, v.destination_type)
    } else if ts.len() != 1 {
        Some(TypeError::InputCount(1))
    } else if ts[0] != RegisterTypeView::Plaintext(v.operand_type) {
        Some(TypeError::InputType(0))
    } else if size_in_bits is None {
        Some(TypeError::UnknownSize)
    } else if size_in_bits->0 != array_length(v.operand_type) {
        Some(TypeError::SizeMismatch)
    } else {
        None
    }
}

fn input_is(input_types: &Vec<RegisterType>, t: &PlaintextType) -> (r: bool)
    requires
        input_types@.len() == 1,
    ensures
        r == (register_types_view(input_types@)[0] == RegisterTypeView::Plaintext(t@)),
{
    match &input_types[0] {
        RegisterType::Plaintext(p) => same_plaintext_type(p, t),
        _ => false,
    }
}

fn single(t: &PlaintextType) -> (r: Vec<RegisterType>)
    ensures
        register_types_view(r@) == seq![RegisterTypeView::Plaintext(t@)],
{
    let mut v: Vec<RegisterType> = Vec::new();
    v.push(RegisterType::Plaintext(copy_plaintext_type(t)));
    assert(register_types_view(v@) =~= seq![RegisterTypeView::Plaintext(t@)]);
    v
}

impl SerializeInstruction {
    /// The parts make a `serialize` instruction.
    pub closed spec fn wf(&self) -> bool {
        self.variant < 2 && serialize_error(self@.operands, self@.operand_type, self@.destination_type) is None
    }

    /// Makes a `serialize` instruction of the variant: refused unless it has one operand, of a
    /// type that may be turned into bits, and the destination type is an array of booleans.
    pub fn new(
        variant: u8,
        operands: Vec<Operand>,
        operand_type: PlaintextType,
        destination: Register,
        destination_type: PlaintextType,
    ) -> (r: Result<SerializeInstruction, TypeError>)
        requires
            variant < 2,
        ensures
            match serialize_error(operands_view(operands@), operand_type@, destination_type@) {
                Some(e) => r == Err::<SerializeInstruction, TypeError>(e),
                None => r matches Ok(x) && x.wf() && x@ == (BitsView {
                    variant,
                    operands: operands_view(operands@),
                    operand_type: operand_type@,
                    destination: destination@,
                    destination_type: destination_type@,
                }),
            },
    {
        if operands.len() != 1 {
            return Err(TypeError::OperandCount);
        }
        if !bits_value(&operand_type) {
            return Err(TypeError::OperandType);
        }
        if !bit_array(&destination_type) {
            return Err(TypeError::DestinationType);
        }
        Ok(SerializeInstruction { variant, operands, operand_type, destination, destination_type })
    }

    /// The operands.
    pub fn operands(&self) -> (r: &Vec<Operand>)
        ensures
            operands_view(r@) == self@.operands,
    {
        &self.operands
    }

    /// The declared type of the operand.
    pub fn operand_type(&self) -> (r: &PlaintextType)
        ensures
            r@ == self@.operand_type,
    {
        &self.operand_type
    }

    /// The opcode.
    pub fn opcode(&self) -> (r: &'static str)
        requires
            self.wf(),
        ensures
            r@ == spec_serialize_opcode(self@.variant),
    {
        SerializeVariant::opcode(self.variant)
    }

    /// The destination registers: the one destination.
    pub fn destinations(&self) -> (r: Vec<Register>)
        ensures
            r@.len() == 1,
            r@[0]@ == self@.destination,
    {
        let mut v: Vec<Register> = Vec::new();
        v.push(self.destination.copy());
        v
    }

    /// The destination register.
    pub fn destination(&self) -> (r: &Register)
        ensures
            r@ == self@.destination,
    {
        &self.destination
    }

    /// The type of the destination: an array of booleans.
    pub fn destination_type(&self) -> (r: &PlaintextType)
        ensures
            r@ == self@.destination_type,
    {
        &self.destination_type
    }

    /// Returns `true` if the operand's type holds a struct of another program.
    pub fn contains_external_struct(&self) -> (r: bool)
        ensures
            r == contains_external_struct(self@.operand_type),
    {
        plaintext_contains_external_struct(&self.operand_type)
    }

    /// Returns the output types of the instruction with the input types: the array of bits,
    /// or why the inputs are refused.
    pub fn output_types(&self, input_types: &Vec<RegisterType>, size_in_bits: Option<u64>) -> (r: Result<
        Vec<RegisterType>,
        TypeError,
    >)
        ensures
            match serialize_output_error(self@, register_types_view(input_types@), size_in_bits) {
                Some(e) => r == Err::<Vec<RegisterType>, TypeError>(e),
                None => r matches Ok(v) && register_types_view(v@) == seq![
                    RegisterTypeView::Plaintext(self@.destination_type),
                ],
            },
    {
        if self.operands.len() != 1 {
            return Err(TypeError::OperandCount);
        }
        if !bits_value(&self.operand_type) {
            return Err(TypeError::OperandType);
        }
        if !bit_array(&self.destination_type) {
            return Err(TypeError::DestinationType);
        }
        if input_types.len() != 1 {
            return Err(TypeError::InputCount(1));
        }
        if !input_is(input_types, &self.operand_type) {
            return Err(TypeError::InputType(0));
        }
        match size_in_bits {
            None => Err(TypeError::UnknownSize),
            Some(size) => if size != length_of(&self.destination_type) as u64 {
                Err(TypeError::SizeMismatch)
            } else {
                Ok(single(&self.destination_type))
            },
        }
    }
}

impl DeserializeInstruction {
    /// The parts make a `deserialize` instruction.
    pub closed spec fn wf(&self) -> bool {
        self.variant < 2 && deserialize_error(self@.operands, self@.operand_type, self@.destination_type) is None
    }

    /// Makes a `deserialize` instruction of the variant: refused unless it has one operand, an
    /// array of booleans, and the destination type may be made from bits.
    pub fn new(
        variant: u8,
        operands: Vec<Operand>,
        operand_type: PlaintextType,
        destination: Register,
        destination_type: PlaintextType,
    ) -> (r: Result<DeserializeInstruction, TypeError>)
        requires
            variant < 2,
        ensures
            match deserialize_error(operands_view(operands@), operand_type@, destination_type@) {
                Some(e) => r == Err::<DeserializeInstruction, TypeError>(e),
                None => r matches Ok(x) && x.wf() && x@ == (BitsView {
                    variant,
                    operands: operands_view(operands@),
                    operand_type: operand_type@,
                    destination: destination@,
                    destination_type: destination_type@,
                }),
            },
    {
        if operands.len() != 1 {
            return Err(TypeError::OperandCount);
        }
        if !bit_array(&operand_type) {
            return Err(TypeError::OperandType);
        }
        if !bits_value(&destination_type) {
            return Err(TypeError::DestinationType);
        }
        Ok(DeserializeInstruction { variant, operands, operand_type, destination, destination_type })
    }

    /// The operands.
    pub fn operands(&self) -> (r: &Vec<Operand>)
        ensures
            operands_view(r@) == self@.operands,
    {
        &self.operands
    }

    /// The declared type of the operand: an array of booleans.
    pub fn operand_type(&self) -> (r: &PlaintextType)
        ensures
            r@ == self@.operand_type,
    {
        &self.operand_type
    }

    /// The opcode.
    pub fn opcode(&self) -> (r: &'static str)
        requires
            self.wf(),
        ensures
            r@ == spec_deserialize_opcode(self@.variant),
    {
        DeserializeVariant::opcode(self.variant)
    }

    /// The destination registers: the one destination.
    pub fn destinations(&self) -> (r: Vec<Register>)
        ensures
            r@.len() == 1,
            r@[0]@ == self@.destination,
    {
        let mut v: Vec<Register> = Vec::new();
        v.push(self.destination.copy());
        v
    }

    /// The destination register.
    pub fn destination(&self) -> (r: &Register)
        ensures
            r@ == self@.destination,
    {
        &self.destination
    }

    /// The type of the destination.
    pub fn destination_type(&self) -> (r: &PlaintextType)
        ensures
            r@ == self@.destination_type,
    {
        &self.destination_type
    }

    /// Returns `true` if the destination type holds a struct of another program.
    pub fn contains_external_struct(&self) -> (r: bool)
        ensures
            r == contains_external_struct(self@.destination_type),
    {
        plaintext_contains_external_struct(&self.destination_type)
    }

    /// Returns the output types of the instruction with the input types: the destination type,
    /// or why the inputs are refused.
    pub fn output_types(&self, input_types: &Vec<RegisterType>, size_in_bits: Option<u64>) -> (r: Result<
        Vec<RegisterType>,
        TypeError,
    >)
        ensures
            match deserialize_output_error(self@, register_types_view(input_types@), size_in_bits) {
                Some(e) => r == Err::<Vec<RegisterType>, TypeError>(e),
                None => r matches Ok(v) && register_types_view(v@) == seq![
                    RegisterTypeView::Plaintext(self@.destination_type),
                ],
            },
    {
        if self.operands.len() != 1 {
            return Err(TypeError::OperandCount);
        }
        if !bit_array(&self.operand_type) {
            return Err(TypeError::OperandType);
        }
        if !bits_value(&self.destination_type) {
            return Err(TypeError::DestinationType);
        }
        if input_types.len() != 1 {
            return Err(TypeError::InputCount(1));
        }
        if !input_is(input_types, &self.operand_type) {
            return Err(TypeError::InputType(0));
        }
        match size_in_bits {
            None => Err(TypeError::UnknownSize),
            Some(size) => if size != length_of(&self.operand_type) as u64 {
                Err(TypeError::SizeMismatch)
            } else {
                Ok(single(&self.destination_type))
            },
        }
    }
}

/// Whitespace, `(`, whitespace, a plaintext type and `)`: the length of the rest and the type.
pub open spec fn spec_paren_type(t: Seq<char>) -> Option<(nat, PlaintextTypeView)> {
    match console_whitespace(t) {
        Some(k0) => {
            let t0 = tail(t, k0);
            if !starts_with(t0, "("@) {
                None
            } else {
                match console_whitespace(after(t0, "("@)) {
                    Some(k1) => match spec_parse_plaintext_type(tail(after(t0, "("@), k1)) {
                        Some((k2, ty)) => {
                            let t2 = tail(tail(after(t0, "("@), k1), k2);
                            if starts_with(t2, ")"@) {
                                Some((after(t2, ")"@).len(), ty))
                            } else {
                                None
                            }
                        },
                        None => None,
                    },
                    None => None,
                }
            }
        },
        None => None,
    }
}

fn paren_type(t: &[char]) -> (r: Option<(usize, PlaintextType)>)
    ensures
        spec_paren_type(t@) == match r {
            Some((k, ty)) => Some((k as nat, ty@)),
            None => None::<(nat, PlaintextTypeView)>,
        },
        r matches Some((k, _)) ==> k <= t@.len(),
{
    let k0 = match crate::console::whitespace(t) {
        Some(k) => k,
        None => return None,
    };
    let t0 = tail_of(t, k0);
    let open = chars_of("(");
    if !has_prefix(t0, &open) {
        return None;
    }
    let t1 = tail_of(t0, t0.len() - open.len());
    let k1 = match crate::console::whitespace(t1) {
        Some(k) => k,
        None => return None,
    };
    let (k2, ty) = match parse_plaintext_type(tail_of(t1, k1)) {
        Some(found) => found,
        None => return None,
    };
    let t2 = tail_of(tail_of(t1, k1), k2);
    let close = chars_of(")");
    if !has_prefix(t2, &close) {
        return None;
    }
    Some((k2 - close.len(), ty))
}

/// What the parser of a `serialize` or `deserialize` opcode reads from the start of the text:
/// the opcode, one operand, its type in brackets, `into`, the destination register and its
/// type in brackets, with whitespace between them. The length of the rest, the operands, the
/// operand's type, the destination and its type.
pub open spec fn spec_parse_bits_op(opcode: Seq<char>, t: Seq<char>) -> Option<
    (nat, Seq<OperandView>, PlaintextTypeView, RegisterView, PlaintextTypeView),
> {
    if !starts_with(t, opcode) {
        None
    } else {
        let t0 = after(t, opcode);
        match spec_ws_operands_exact(t0, 1) {
            Some((k1, operands)) => match spec_paren_type(tail(t0, k1)) {
                Some((k2, operand_type)) => match spec_into_register(tail(tail(t0, k1), k2)) {
                    Some((k3, destination)) => match spec_paren_type(tail(tail(tail(t0, k1), k2), k3)) {
                        Some((k4, destination_type)) => Some(
                            (k4, operands, operand_type, destination, destination_type),
                        ),
                        None => None,
                    },
                    None => None,
                },
                None => None,
            },
            None => None,
        }
    }
}

fn parse_bits_op(opcode: &str, t: &[char]) -> (r: Option<(usize, Vec<Operand>, PlaintextType, Register, PlaintextType)>)
    ensures
        spec_parse_bits_op(opcode@, t@) == match r {
            Some((k, ops, a, reg, b)) => Some((k as nat, operands_view(ops@), a@, reg@, b@)),
            None => None::<(nat, Seq<OperandView>, PlaintextTypeView, RegisterView, PlaintextTypeView)>,
        },
        r matches Some((k, _, _, _, _)) ==> k <= t@.len(),
{
    let op = chars_of(opcode);
    if !has_prefix(t, &op) {
        return None;
    }
    let t0 = tail_of(t, t.len() - op.len());
    let (k1, operands) = match ws_operands_exact(t0, 1) {
        Some(found) => found,
        None => return None,
    };
    let t1 = tail_of(t0, k1);
    let (k2, operand_type) = match paren_type(t1) {
        Some(found) => found,
        None => return None,
    };
    let t2 = tail_of(t1, k2);
    let (k3, destination) = match into_register(t2) {
        Some(found) => found,
        None => return None,
    };
    match paren_type(tail_of(t2, k3)) {
        Some((k4, destination_type)) => Some((k4, operands, operand_type, destination, destination_type)),
        None => None,
    }
}

/// What the `serialize` parser of the variant reads from the start of the text: the parts of
/// `spec_parse_bits_op`, where the destination type is an array type (console's array type
/// parser is its plaintext type parser where that reads an array), and the parts make a
/// `serialize` instruction. The length of the rest and the instruction.
pub open spec fn spec_parse_serialize(variant: u8, t: Seq<char>) -> Option<(nat, BitsView)> {
    match spec_parse_bits_op(spec_serialize_opcode(variant), t) {
        Some((k, operands, operand_type, destination, destination_type)) => if destination_type is Array
            && serialize_error(operands, operand_type, destination_type) is None {
            Some((k, BitsView { variant, operands, operand_type, destination, destination_type }))
        } else {
            None
        },
        None => None,
    }
}

/// What the `deserialize` parser of the variant reads from the start of the text: the parts
/// of `spec_parse_bits_op`, where the operand's type is an array type, and the parts make a
/// `deserialize` instruction. The length of the rest and the instruction.
pub open spec fn spec_parse_deserialize(variant: u8, t: Seq<char>) -> Option<(nat, BitsView)> {
    match spec_parse_bits_op(spec_deserialize_opcode(variant), t) {
        Some((k, operands, operand_type, destination, destination_type)) => if operand_type is Array
            && deserialize_error(operands, operand_type, destination_type) is None {
            Some((k, BitsView { variant, operands, operand_type, destination, destination_type }))
        } else {
            None
        },
        None => None,
    }
}

/// The printed instruction: the opcode, the operands each after a space, two spaces, the
/// operand's type in brackets, `into`, the destination and its type in brackets.
pub open spec fn bits_op_text(opcode: Seq<char>, v: BitsView) -> Seq<char> {
    opcode + spaced_operands(v.operands) + "  ("@ + plaintext_type_text(v.operand_type) + ") into "@
        + v.destination.text + " ("@ + plaintext_type_text(v.destination_type) + ")"@
}

fn bits_op_string(
    opcode: &str,
    operands: &Vec<Operand>,
    operand_type: &PlaintextType,
    destination: &Register,
    destination_type: &PlaintextType,
) -> (r: String)
    ensures
        r@ == bits_op_text(
            opcode@,
            BitsView {
                variant: 0,
                operands: operands_view(operands@),
                operand_type: operand_type@,
                destination: destination@,
                destination_type: destination_type@,
            },
        ),
{
    let mut out: Vec<char> = Vec::new();
    push_all(&mut out, &chars_of(opcode));
    write_spaced_operands(&mut out, operands.as_slice());
    push_all(&mut out, &chars_of("  ("));
    operand_type.write_text(&mut out);
    push_all(&mut out, &chars_of(") into "));
    push_all(&mut out, &chars_of(destination.text.as_str()));
    push_all(&mut out, &chars_of(" ("));
    destination_type.write_text(&mut out);
    push_all(&mut out, &chars_of(")"));
    assert(out@ =~= bits_op_text(
        opcode@,
        BitsView {
            variant: 0,
            operands: operands_view(operands@),
            operand_type: operand_type@,
            destination: destination@,
            destination_type: destination_type@,
        },
    ));
    string_of(&out)
}

impl SerializeInstruction {
    /// Parses a `serialize` instruction of the variant from the start of the characters.
    pub fn parse_chars(variant: u8, t: &[char]) -> (r: Option<(usize, SerializeInstruction)>)
        requires
            variant < 2,
        ensures
            spec_parse_serialize(variant, t@) == match r {
                Some((k, x)) => Some((k as nat, x@)),
                None => None::<(nat, BitsView)>,
            },
            r matches Some((k, x)) ==> k <= t@.len() && x.wf(),
    {
        let (k, operands, operand_type, destination, destination_type) = match parse_bits_op(
            SerializeVariant::opcode(variant),
            t,
        ) {
            Some(found) => found,
            None => return None,
        };
        if !matches!(destination_type, PlaintextType::Array(..)) {
            return None;
        }
        match SerializeInstruction::new(variant, operands, operand_type, destination, destination_type) {
            Ok(x) => Some((k, x)),
            Err(_) => None,
        }
    }

    /// Parses a `serialize` instruction of the variant from the start of the string: the rest
    /// of the string and the instruction.
    pub fn parse(variant: u8, string: &str) -> (r: Option<(String, SerializeInstruction)>)
        requires
            variant < 2,
        ensures
            match spec_parse_serialize(variant, string@) {
                Some((k, x)) => r matches Some((rest, y)) && rest@ == tail(string@, k) && y@ == x && y.wf(),
                None => r is None,
            },
    {
        let s = chars_of(string);
        match SerializeInstruction::parse_chars(variant, &s) {
            Some((k, x)) => Some((string_of(tail_of(&s, k)), x)),
            None => None,
        }
    }

    /// Parses a `serialize` instruction of the variant from the whole string.
    pub fn from_str(variant: u8, string: &str) -> (r: Option<SerializeInstruction>)
        requires
            variant < 2,
        ensures
            match spec_parse_serialize(variant, string@) {
                Some((k, x)) => if k == 0 {
                    r matches Some(y) && y@ == x
                } else {
                    r is None
                },
                None => r is None,
            },
    {
        let s = chars_of(string);
        match SerializeInstruction::parse_chars(variant, &s) {
            Some((k, x)) => if k == 0 {
                Some(x)
            } else {
                None
            },
            None => None,
        }
    }

    /// Returns the printed instruction.
    pub fn to_string(&self) -> (r: String)
        requires
            self.wf(),
        ensures
            r@ == bits_op_text(spec_serialize_opcode(self@.variant), self@),
    {
        bits_op_string(
            SerializeVariant::opcode(self.variant),
            &self.operands,
            &self.operand_type,
            &self.destination,
            &self.destination_type,
        )
    }
}

impl DeserializeInstruction {
    /// Parses a `deserialize` instruction of the variant from the start of the characters.
    pub fn parse_chars(variant: u8, t: &[char]) -> (r: Option<(usize, DeserializeInstruction)>)
        requires
            variant < 2,
        ensures
            spec_parse_deserialize(variant, t@) == match r {
                Some((k, x)) => Some((k as nat, x@)),
                None => None::<(nat, BitsView)>,
            },
            r matches Some((k, x)) ==> k <= t@.len() && x.wf(),
    {
        let (k, operands, operand_type, destination, destination_type) = match parse_bits_op(
            DeserializeVariant::opcode(variant),
            t,
        ) {
            Some(found) => found,
            None => return None,
        };
        if !matches!(operand_type, PlaintextType::Array(..)) {
            return None;
        }
        match DeserializeInstruction::new(variant, operands, operand_type, destination, destination_type) {
            Ok(x) => Some((k, x)),
            Err(_) => None,
        }
    }

    /// Parses a `deserialize` instruction of the variant from the start of the string: the
    /// rest of the string and the instruction.
    pub fn parse(variant: u8, string: &str) -> (r: Option<(String, DeserializeInstruction)>)
        requires
            variant < 2,
        ensures
            match spec_parse_deserialize(variant, string@) {
                Some((k, x)) => r matches Some((rest, y)) && rest@ == tail(string@, k) && y@ == x && y.wf(),
                None => r is None,
            },
    {
        let s = chars_of(string);
        match DeserializeInstruction::parse_chars(variant, &s) {
            Some((k, x)) => Some((string_of(tail_of(&s, k)), x)),
            None => None,
        }
    }

    /// Parses a `deserialize` instruction of the variant from the whole string.
    pub fn from_str(variant: u8, string: &str) -> (r: Option<DeserializeInstruction>)
        requires
            variant < 2,
        ensures
            match spec_parse_deserialize(variant, string@) {
                Some((k, x)) => if k == 0 {
                    r matches Some(y) && y@ == x
                } else {
                    r is None
                },
                None => r is None,
            },
    {
        let s = chars_of(string);
        match DeserializeInstruction::parse_chars(variant, &s) {
            Some((k, x)) => if k == 0 {
                Some(x)
            } else {
                None
            },
            None => None,
        }
    }

    /// Returns the printed instruction.
    pub fn to_string(&self) -> (r: String)
        requires
            self.wf(),
        ensures
            r@ == bits_op_text(spec_deserialize_opcode(self@.variant), self@),
    {
        bits_op_string(
            DeserializeVariant::opcode(self.variant),
            &self.operands,
            &self.operand_type,
            &self.destination,
            &self.destination_type,
        )
    }
}

/// The bytes of a `serialize` instruction: its operand, the operand's type, its destination
/// and the destination's array type.
pub open spec fn spec_serialize_bytes(v: BitsView) -> Option<Seq<u8>> {
    match (
        spec_operands_bytes(v.operands),
        spec_plaintext_bytes(v.operand_type),
        spec_register_bytes(v.destination),
        spec_array_bytes(v.destination_type),
    ) {
        (Some(a), Some(b), Some(c), Some(d)) => Some(a + b + c + d),
        _ => None,
    }
}

/// The bytes of a `deserialize` instruction: its operand, the operand's array type, its
/// destination and the destination's type.
pub open spec fn spec_deserialize_bytes(v: BitsView) -> Option<Seq<u8>> {
    match (
        spec_operands_bytes(v.operands),
        spec_array_bytes(v.operand_type),
        spec_register_bytes(v.destination),
        spec_plaintext_bytes(v.destination_type),
    ) {
        (Some(a), Some(b), Some(c), Some(d)) => Some(a + b + c + d),
        _ => None,
    }
}

/// A `serialize` instruction of the variant read from the bytes: one operand, a plaintext
/// type, a register and an array type, which must make a `serialize` instruction. The number
/// of bytes left and the instruction.
pub open spec fn spec_read_serialize(variant: u8, b: Seq<u8>) -> Option<(nat, BitsView)> {
    match spec_read_operands(b, 1) {
        Some((k1, operands)) => match console_read_plaintext_type(left(b, k1)) {
            Some((k2, operand_type)) => match spec_read_register(left(left(b, k1), k2)) {
                Some((k3, destination)) => match spec_read_array_type(left(left(left(b, k1), k2), k3)) {
                    Some((k4, destination_type)) => if serialize_error(operands, operand_type, destination_type) is None {
                        Some((k4, BitsView { variant, operands, operand_type, destination, destination_type }))
                    } else {
                        None
                    },
                    None => None,
                },
                None => None,
            },
            None => None,
        },
        None => None,
    }
}

/// A `deserialize` instruction of the variant read from the bytes: one operand, an array type,
/// a register and a plaintext type, which must make a `deserialize` instruction. The number of
/// bytes left and the instruction.
pub open spec fn spec_read_deserialize(variant: u8, b: Seq<u8>) -> Option<(nat, BitsView)> {
    match spec_read_operands(b, 1) {
        Some((k1, operands)) => match spec_read_array_type(left(b, k1)) {
            Some((k2, operand_type)) => match spec_read_register(left(left(b, k1), k2)) {
                Some((k3, destination)) => match console_read_plaintext_type(left(left(left(b, k1), k2), k3)) {
                    Some((k4, destination_type)) => if deserialize_error(operands, operand_type, destination_type)
                        is None {
                        Some((k4, BitsView { variant, operands, operand_type, destination, destination_type }))
                    } else {
                        None
                    },
                    None => None,
                },
                None => None,
            },
            None => None,
        },
        None => None,
    }
}

/// The instruction as console reads back what its parts hold.
pub open spec fn normal_bits(v: BitsView) -> BitsView {
    BitsView {
        variant: v.variant,
        operands: normal_operands(v.operands),
        operand_type: normal_plaintext_type(v.operand_type),
        destination: normal_register(v.destination),
        destination_type: normal_plaintext_type(v.destination_type),
    }
}

proof fn lemma_four(a: Seq<u8>, b: Seq<u8>, c: Seq<u8>, d: Seq<u8>, rest: Seq<u8>)
    ensures
        (a + b + c + d) + rest == a + (b + (c + (d + rest))),
        left(a + (b + (c + (d + rest))), (b + (c + (d + rest))).len()) == b + (c + (d + rest)),
        left(b + (c + (d + rest)), (c + (d + rest)).len()) == c + (d + rest),
        left(c + (d + rest), (d + rest).len()) == d + rest,
{
    assert((a + b + c + d) + rest =~= a + (b + (c + (d + rest))));
    lemma_left(a, b + (c + (d + rest)));
    lemma_left(b, c + (d + rest));
    lemma_left(c, d + rest);
}

impl SerializeInstruction {
    /// Writes the instruction as bytes: `None` where console cannot write what a part holds.
    /// Reading the bytes back gives the instruction as console reads back what it holds,
    /// whatever follows, where that still makes a `serialize` instruction.
    pub fn write_le(&self) -> (r: Option<Vec<u8>>)
        requires
            self.wf(),
        ensures
            spec_serialize_bytes(self@) == match r {
                Some(b) => Some(b@),
                None => None::<Seq<u8>>,
            },
            r matches Some(b) ==> forall|rest: Seq<u8>|
                #[trigger] spec_read_serialize(self@.variant, b@ + rest) == if serialize_error(
                    normal_bits(self@).operands,
                    normal_bits(self@).operand_type,
                    normal_bits(self@).destination_type,
                ) is None {
                    Some((rest.len(), normal_bits(self@)))
                } else {
                    None
                },
    {
        let mut a: Vec<u8> = Vec::new();
        let mut b: Vec<u8> = Vec::new();
        let mut c: Vec<u8> = Vec::new();
        let mut d: Vec<u8> = Vec::new();
        if !write_operands(&mut a, self.operands.as_slice()) || !write_plaintext_type(&mut b, &self.operand_type)
            || !write_register(&mut c, &self.destination) || !write_array_type(&mut d, &self.destination_type) {
            return None;
        }
        let mut out: Vec<u8> = Vec::new();
        append_bytes(&mut out, a.as_slice());
        append_bytes(&mut out, b.as_slice());
        append_bytes(&mut out, c.as_slice());
        append_bytes(&mut out, d.as_slice());
        proof {
            assert(a@ =~= Seq::<u8>::empty() + a@);
            assert(out@ =~= a@ + b@ + c@ + d@);
            assert forall|rest: Seq<u8>| #[trigger] spec_read_serialize(self@.variant, out@ + rest) == if serialize_error(
                normal_bits(self@).operands,
                normal_bits(self@).operand_type,
                normal_bits(self@).destination_type,
            ) is None {
                Some((rest.len(), normal_bits(self@)))
            } else {
                None
            } by {
                lemma_four(a@, b@, c@, d@, rest);
                let r3 = d@ + rest;
                let r2 = c@ + r3;
                let r1 = b@ + r2;
                assert(spec_read_operands(a@ + r1, 1) == Some((r1.len(), normal_operands(self@.operands))));
                assert(console_read_plaintext_type(b@ + r2) == Some((r2.len(), normal_plaintext_type(self@.operand_type))));
                assert(spec_read_register(c@ + r3) == Some((r3.len(), normal_register(self@.destination))));
                assert(spec_read_array_type(d@ + rest) == Some((rest.len(), normal_plaintext_type(self@.destination_type))));
            }
        }
        Some(out)
    }

    /// Reads a `serialize` instruction of the variant from the start of the bytes: the number
    /// of bytes left and the instruction.
    pub fn read_le(variant: u8, b: &[u8]) -> (r: Option<(usize, SerializeInstruction)>)
        requires
            variant < 2,
        ensures
            spec_read_serialize(variant, b@) == match r {
                Some((k, x)) => Some((k as nat, x@)),
                None => None::<(nat, BitsView)>,
            },
            r matches Some((k, x)) ==> k <= b@.len() && x.wf(),
    {
        let (k1, operands) = match read_operands(b, 1) {
            Some(found) => found,
            None => return None,
        };
        let b1 = left_of(b, k1);
        let (k2, operand_type) = match read_plaintext_type(b1) {
            Some(found) => found,
            None => return None,
        };
        let b2 = left_of(b1, k2);
        let (k3, destination) = match read_register(b2) {
            Some(found) => found,
            None => return None,
        };
        let (k4, destination_type) = match read_array_type(left_of(b2, k3)) {
            Some(found) => found,
            None => return None,
        };
        match SerializeInstruction::new(variant, operands, operand_type, destination, destination_type) {
            Ok(x) => Some((k4, x)),
            Err(_) => None,
        }
    }
}

impl DeserializeInstruction {
    /// Writes the instruction as bytes: `None` where console cannot write what a part holds.
    /// Reading the bytes back gives the instruction as console reads back what it holds,
    /// whatever follows, where that still makes a `deserialize` instruction.
    pub fn write_le(&self) -> (r: Option<Vec<u8>>)
        requires
            self.wf(),
        ensures
            spec_deserialize_bytes(self@) == match r {
                Some(b) => Some(b@),
                None => None::<Seq<u8>>,
            },
            r matches Some(b) ==> forall|rest: Seq<u8>|
                #[trigger] spec_read_deserialize(self@.variant, b@ + rest) == if deserialize_error(
                    normal_bits(self@).operands,
                    normal_bits(self@).operand_type,
                    normal_bits(self@).destination_type,
                ) is None {
                    Some((rest.len(), normal_bits(self@)))
                } else {
                    None
                },
    {
        let mut a: Vec<u8> = Vec::new();
        let mut b: Vec<u8> = Vec::new();
        let mut c: Vec<u8> = Vec::new();
        let mut d: Vec<u8> = Vec::new();
        if !write_operands(&mut a, self.operands.as_slice()) || !write_array_type(&mut b, &self.operand_type)
            || !write_register(&mut c, &self.destination) || !write_plaintext_type(&mut d, &self.destination_type) {
            return None;
        }
        let mut out: Vec<u8> = Vec::new();
        append_bytes(&mut out, a.as_slice());
        append_bytes(&mut out, b.as_slice());
        append_bytes(&mut out, c.as_slice());
        append_bytes(&mut out, d.as_slice());
        proof {
            assert(a@ =~= Seq::<u8>::empty() + a@);
            assert(out@ =~= a@ + b@ + c@ + d@);
            assert forall|rest: Seq<u8>| #[trigger] spec_read_deserialize(self@.variant, out@ + rest) == if deserialize_error(
                normal_bits(self@).operands,
                normal_bits(self@).operand_type,
                normal_bits(self@).destination_type,
            ) is None {
                Some((rest.len(), normal_bits(self@)))
            } else {
                None
            } by {
                lemma_four(a@, b@, c@, d@, rest);
                let r3 = d@ + rest;
                let r2 = c@ + r3;
                let r1 = b@ + r2;
                assert(spec_read_operands(a@ + r1, 1) == Some((r1.len(), normal_operands(self@.operands))));
                assert(spec_read_array_type(b@ + r2) == Some((r2.len(), normal_plaintext_type(self@.operand_type))));
                assert(spec_read_register(c@ + r3) == Some((r3.len(), normal_register(self@.destination))));
                assert(console_read_plaintext_type(d@ + rest) == Some((rest.len(), normal_plaintext_type(self@.destination_type))));
            }
        }
        Some(out)
    }

    /// Reads a `deserialize` instruction of the variant from the start of the bytes: the number
    /// of bytes left and the instruction.
    pub fn read_le(variant: u8, b: &[u8]) -> (r: Option<(usize, DeserializeInstruction)>)
        requires
            variant < 2,
        ensures
            spec_read_deserialize(variant, b@) == match r {
                Some((k, x)) => Some((k as nat, x@)),
                None => None::<(nat, BitsView)>,
            },
            r matches Some((k, x)) ==> k <= b@.len() && x.wf(),
    {
        let (k1, operands) = match read_operands(b, 1) {
            Some(found) => found,
            None => return None,
        };
        let b1 = left_of(b, k1);
        let (k2, operand_type) = match read_array_type(b1) {
            Some(found) => found,
            None => return None,
        };
        let b2 = left_of(b1, k2);
        let (k3, destination) = match read_register(b2) {
            Some(found) => found,
            None => return None,
        };
        let (k4, destination_type) = match read_plaintext_type(left_of(b2, k3)) {
            Some(found) => found,
            None => return None,
        };
        match DeserializeInstruction::new(variant, operands, operand_type, destination, destination_type) {
            Ok(x) => Some((k4, x)),
            Err(_) => None,
        }
    }
}

/// A size in bits, as a `u64`.
pub open spec fn size_as_u64(n: Option<nat>) -> Option<u64> {
    match n {
        Some(k) => Some(k as u64),
        None => None,
    }
}

fn size_u64(n: Option<usize>) -> (r: Option<u64>)
    ensures
        r == size_as_u64(
            match n {
                Some(k) => Some(k as nat),
                None => None::<nat>,
            },
        ),
{
    match n {
        Some(k) => Some(k as u64),
        None => None,
    }
}

impl SerializeInstruction {
    /// Returns the output types of the instruction with the input types, where the size in bits
    /// of the operand type is console's (raw for `serialize.bits.raw`), with the struct
    /// definitions of the table.
    pub fn output_types_in(&self, input_types: &Vec<RegisterType>, structs: &StructTable) -> (r: Result<
        Vec<RegisterType>,
        TypeError,
    >)
        ensures
            match serialize_output_error(
                self@,
                register_types_view(input_types@),
                size_as_u64(type_size(self@.operand_type, self@.variant == 1, structs@)),
            ) {
                Some(e) => r == Err::<Vec<RegisterType>, TypeError>(e),
                None => r matches Ok(v) && register_types_view(v@) == seq![
                    RegisterTypeView::Plaintext(self@.destination_type),
                ],
            },
    {
        let size = size_u64(size_of_type(&self.operand_type, self.variant == 1, structs));
        self.output_types(input_types, size)
    }

    /// Evaluates the instruction on the value of its operand and returns the value for its
    /// destination: the operand's bits (raw for `serialize.bits.raw`) as an array of booleans
    /// of the destination type; `None` for `serialize.bits` where console could not write the
    /// bits of the value.
    pub fn evaluate(&self, input: &PlaintextValue) -> (r: Option<PlaintextValue>)
        ensures
            opt_value_view(r) == if self@.variant != 1 && !value_fits(input@) {
                None
            } else {
                spec_serialize_bits(self@.variant == 1, input@, self@.destination_type)
            },
    {
        let variant = if self.variant == 1 {
            SerializeVariant::ToBitsRaw
        } else {
            SerializeVariant::ToBits
        };
        if self.variant != 1 && !input.bits_fit() {
            return None;
        }
        evaluate_serialize(variant, input, &self.destination_type)
    }
}

impl DeserializeInstruction {
    /// Returns the output types of the instruction with the input types, where the size in bits
    /// of the destination type is console's (raw for `deserialize.bits.raw`), with the struct
    /// definitions of the table.
    pub fn output_types_in(&self, input_types: &Vec<RegisterType>, structs: &StructTable) -> (r: Result<
        Vec<RegisterType>,
        TypeError,
    >)
        ensures
            match deserialize_output_error(
                self@,
                register_types_view(input_types@),
                size_as_u64(type_size(self@.destination_type, self@.variant == 1, structs@)),
            ) {
                Some(e) => r == Err::<Vec<RegisterType>, TypeError>(e),
                None => r matches Ok(v) && register_types_view(v@) == seq![
                    RegisterTypeView::Plaintext(self@.destination_type),
                ],
            },
    {
        let size = size_u64(size_of_type(&self.destination_type, self.variant == 1, structs));
        self.output_types(input_types, size)
    }

    /// Evaluates the instruction on the value of its operand and returns the value for its
    /// destination: the operand must be an array of booleans, and its bits are read (with or
    /// without metadata, as the variant reads them) as a value of the destination type, with
    /// the struct definitions of the table.
    pub fn evaluate(&self, input: &PlaintextValue, structs: &StructTable) -> (r: Option<PlaintextValue>)
        ensures
            opt_value_view(r) == match spec_as_bit_array(input@) {
                Some(bits) => spec_decode(self@.variant == 0, bits, self@.destination_type, structs@, 0),
                None => None,
            },
    {
        let bits = match as_bit_array(input) {
            Some(b) => b,
            None => return None,
        };
        let variant = if self.variant == 0 {
            DeserializeVariant::FromBits
        } else {
            DeserializeVariant::FromBitsRaw
        };
        evaluate_deserialize(variant, &bits, &self.destination_type, structs)
    }
}

} // verus!
