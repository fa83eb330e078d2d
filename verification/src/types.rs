//! The types of registers, as the type checks of instructions read them, and the output types
//! of the `snark.verify`, `ecdsa.verify`, `hash` and `call.dynamic` instructions.
use vstd::prelude::*;

use crate::operand::{Identifier, ProgramID, ProgramIDView};
use crate::variants::{ECDSAVerifyVariant, HashVariant, SnarkVerifyVariant, MAX_SNARK_VERIFY_CIRCUITS, MAX_SNARK_VERIFY_INSTANCES};

verus! {

/// The literal types.
#[derive(Clone, Copy, Debug, PartialEq, Eq, Structural)]
pub enum LiteralType {
    Address,
    Boolean,
    Field,
    Group,
    I8,
    I16,
    I32,
    I64,
    I128,
    U8,
    U16,
    U32,
    U64,
    U128,
    Scalar,
    Signature,
    String,
    Identifier,
}

/// A plaintext type: a literal type, a struct of this program, a struct of another program,
/// or an array of an element type with a length.
#[derive(Debug, PartialEq, Eq)]
pub enum PlaintextType {
    Literal(LiteralType),
    Struct(Identifier),
    ExternalStruct(ProgramID, Identifier),
    Array(Box<PlaintextType>, u32),
}

/// The mathematical value of a plaintext type.
pub ghost enum PlaintextTypeView {
    Literal(LiteralType),
    Struct(Seq<char>),
    ExternalStruct(ProgramIDView, Seq<char>),
    Array(Box<PlaintextTypeView>, u32),
}

impl View for PlaintextType {
    type V = PlaintextTypeView;

    open spec fn view(&self) -> PlaintextTypeView
        decreases self,
    {
        match self {
            PlaintextType::Literal(l) => PlaintextTypeView::Literal(*l),
            PlaintextType::Struct(n) => PlaintextTypeView::Struct(n@),
            PlaintextType::ExternalStruct(p, n) => PlaintextTypeView::ExternalStruct(p@, n@),
            PlaintextType::Array(e, n) => PlaintextTypeView::Array(Box::new((**e).view()), *n),
        }
    }
}

/// The literal type with console's numeric id: the position of its variant.
pub open spec fn literal_type_of_id(id: u8) -> LiteralType {
    if id == 0 {
        LiteralType::Address
    } else if id == 1 {
        LiteralType::Boolean
    } else if id == 2 {
        LiteralType::Field
    } else if id == 3 {
        LiteralType::Group
    } else if id == 4 {
        LiteralType::I8
    } else if id == 5 {
        LiteralType::I16
    } else if id == 6 {
        LiteralType::I32
    } else if id == 7 {
        LiteralType::I64
    } else if id == 8 {
        LiteralType::I128
    } else if id == 9 {
        LiteralType::U8
    } else if id == 10 {
        LiteralType::U16
    } else if id == 11 {
        LiteralType::U32
    } else if id == 12 {
        LiteralType::U64
    } else if id == 13 {
        LiteralType::U128
    } else if id == 14 {
        LiteralType::Scalar
    } else if id == 15 {
        LiteralType::Signature
    } else if id == 16 {
        LiteralType::String
    } else {
        LiteralType::Identifier
    }
}

/// Returns the literal type with console's numeric id.
pub fn literal_type_from_id(id: u8) -> (r: LiteralType)
    ensures
        r == literal_type_of_id(id),
{
    match id {
        0 => LiteralType::Address,
        1 => LiteralType::Boolean,
        2 => LiteralType::Field,
        3 => LiteralType::Group,
        4 => LiteralType::I8,
        5 => LiteralType::I16,
        6 => LiteralType::I32,
        7 => LiteralType::I64,
        8 => LiteralType::I128,
        9 => LiteralType::U8,
        10 => LiteralType::U16,
        11 => LiteralType::U32,
        12 => LiteralType::U64,
        13 => LiteralType::U128,
        14 => LiteralType::Scalar,
        15 => LiteralType::Signature,
        16 => LiteralType::String,
        _ => LiteralType::Identifier,
    }
}

/// Console's numeric id of the literal type: the position of its variant.
pub open spec fn literal_type_id(l: LiteralType) -> u8 {
    match l {
        LiteralType::Address => 0,
        LiteralType::Boolean => 1,
        LiteralType::Field => 2,
        LiteralType::Group => 3,
        LiteralType::I8 => 4,
        LiteralType::I16 => 5,
        LiteralType::I32 => 6,
        LiteralType::I64 => 7,
        LiteralType::I128 => 8,
        LiteralType::U8 => 9,
        LiteralType::U16 => 10,
        LiteralType::U32 => 11,
        LiteralType::U64 => 12,
        LiteralType::U128 => 13,
        LiteralType::Scalar => 14,
        LiteralType::Signature => 15,
        LiteralType::String => 16,
        LiteralType::Identifier => 17,
    }
}

/// The ids of the literal types are the positions below 18, and each names its literal type.
pub proof fn lemma_literal_type_id(l: LiteralType)
    ensures
        literal_type_id(l) < 18,
        literal_type_of_id(literal_type_id(l)) == l,
{
}

impl LiteralType {
    /// Returns console's numeric id of the literal type.
    pub fn type_id(&self) -> (r: u8)
        ensures
            r == literal_type_id(*self),
    {
        match self {
            LiteralType::Address => 0,
            LiteralType::Boolean => 1,
            LiteralType::Field => 2,
            LiteralType::Group => 3,
            LiteralType::I8 => 4,
            LiteralType::I16 => 5,
            LiteralType::I32 => 6,
            LiteralType::I64 => 7,
            LiteralType::I128 => 8,
            LiteralType::U8 => 9,
            LiteralType::U16 => 10,
            LiteralType::U32 => 11,
            LiteralType::U64 => 12,
            LiteralType::U128 => 13,
            LiteralType::Scalar => 14,
            LiteralType::Signature => 15,
            LiteralType::String => 16,
            LiteralType::Identifier => 17,
        }
    }
}

/// The type made by wrapping `base` in arrays of the lengths, the first length outermost.
pub open spec fn nest_arrays(base: PlaintextTypeView, lengths: Seq<u32>) -> PlaintextTypeView
    decreases lengths.len(),
{
    if lengths.len() == 0 {
        base
    } else {
        PlaintextTypeView::Array(Box::new(nest_arrays(base, lengths.drop_first())), lengths[0])
    }
}

/// The type of a register: a plaintext type, a record of this program or of another, a
/// future, a dynamic record or a dynamic future.
#[derive(Debug, PartialEq, Eq)]
pub enum RegisterType {
    Plaintext(PlaintextType),
    Record(Identifier),
    ExternalRecord(ProgramID, Identifier),
    Future(ProgramID, Identifier),
    DynamicRecord,
    DynamicFuture,
}

/// The mathematical value of a register type.
pub ghost enum RegisterTypeView {
    Plaintext(PlaintextTypeView),
    Record(Seq<char>),
    ExternalRecord(ProgramIDView, Seq<char>),
    Future(ProgramIDView, Seq<char>),
    DynamicRecord,
    DynamicFuture,
}

impl View for RegisterType {
    type V = RegisterTypeView;

    open spec fn view(&self) -> RegisterTypeView {
        match self {
            RegisterType::Plaintext(p) => RegisterTypeView::Plaintext(p@),
            RegisterType::Record(n) => RegisterTypeView::Record(n@),
            RegisterType::ExternalRecord(p, n) => RegisterTypeView::ExternalRecord(p@, n@),
            RegisterType::Future(p, n) => RegisterTypeView::Future(p@, n@),
            RegisterType::DynamicRecord => RegisterTypeView::DynamicRecord,
            RegisterType::DynamicFuture => RegisterTypeView::DynamicFuture,
        }
    }
}

/// The views of register types.
pub open spec fn register_types_view(v: Seq<RegisterType>) -> Seq<RegisterTypeView> {
    v.map_values(|t: RegisterType| t@)
}

/// The element type inside all the arrays of a type: the type itself if it is not an array.
pub open spec fn innermost(p: PlaintextTypeView) -> PlaintextTypeView
    decreases p,
{
    match p {
        PlaintextTypeView::Array(e, _) => innermost(*e),
        _ => p,
    }
}

/// The type is an array whose innermost element type is the literal type; its length.
pub open spec fn array_of(t: RegisterTypeView, base: LiteralType) -> Option<u32> {
    match t {
        RegisterTypeView::Plaintext(PlaintextTypeView::Array(e, n)) => if innermost(*e)
            == PlaintextTypeView::Literal(base) {
            Some(n)
        } else {
            None
        },
        _ => None,
    }
}

/// After `d` more levels of arrays the element type is the literal type.
pub open spec fn nd_element(e: PlaintextTypeView, base: LiteralType, d: nat) -> bool
    decreases d,
{
    if d == 0 {
        e == PlaintextTypeView::Literal(base)
    } else {
        match e {
            PlaintextTypeView::Array(inner, _) => nd_element(*inner, base, (d - 1) as nat),
            _ => false,
        }
    }
}

/// The type is an array of exactly `dims` dimensions of the literal type (for zero
/// dimensions, the literal type itself).
pub open spec fn is_nd_array(t: RegisterTypeView, base: LiteralType, dims: nat) -> bool {
    if dims == 0 {
        t == RegisterTypeView::Plaintext(PlaintextTypeView::Literal(base))
    } else {
        match t {
            RegisterTypeView::Plaintext(PlaintextTypeView::Array(e, _)) => nd_element(*e, base, (dims - 1) as nat),
            _ => false,
        }
    }
}

pub(crate) fn innermost_of(p: &PlaintextType) -> (r: &PlaintextType)
    ensures
        r@ == innermost(p@),
    decreases p,
{
    match p {
        PlaintextType::Array(e, _) => innermost_of(e),
        _ => p,
    }
}

pub(crate) fn is_literal(p: &PlaintextType, base: LiteralType) -> (r: bool)
    ensures
        r == (p@ == PlaintextTypeView::Literal(base)),
{
    match p {
        PlaintextType::Literal(l) => *l == base,
        _ => false,
    }
}

/// Returns the length of the type if it is an array whose innermost element type is the
/// literal type.
pub fn array_of_literal(t: &RegisterType, base: LiteralType) -> (r: Option<u32>)
    ensures
        r == array_of(t@, base),
{
    match t {
        RegisterType::Plaintext(PlaintextType::Array(e, n)) => if is_literal(innermost_of(e), base) {
            Some(*n)
        } else {
            None
        },
        _ => None,
    }
}

fn nd_element_of(e: &PlaintextType, base: LiteralType, d: usize) -> (r: bool)
    ensures
        r == nd_element(e@, base, d as nat),
    decreases d,
{
    if d == 0 {
        is_literal(e, base)
    } else {
        match e {
            PlaintextType::Array(inner, _) => nd_element_of(inner, base, d - 1),
            _ => false,
        }
    }
}

/// Returns `true` if the type is an array of exactly `dimensions` dimensions whose elements
/// are of the literal type (for zero dimensions: the literal type itself).
pub fn check_nd_array_type(register_type: &RegisterType, base_literal_type: LiteralType, dimensions: usize) -> (r: bool)
    ensures
        r == is_nd_array(register_type@, base_literal_type, dimensions as nat),
{
    if dimensions == 0 {
        return match register_type {
            RegisterType::Plaintext(p) => is_literal(p, base_literal_type),
            _ => false,
        };
    }
    match register_type {
        RegisterType::Plaintext(PlaintextType::Array(e, _)) => nd_element_of(e, base_literal_type, dimensions - 1),
        _ => false,
    }
}

/// Why an instruction does not accept its input types.
#[derive(Clone, Copy, Debug, PartialEq, Eq)]
pub enum TypeError {
    /// The instruction takes another number of inputs; the number it takes.
    InputCount(usize),
    /// The input at this position has a type that the instruction does not take.
    InputType(usize),
    /// The number of operands is not the number that the variant takes.
    OperandCount,
    /// The number of circuits is not the number of verifying keys.
    CircuitCount,
    /// More circuits than one batch verification may verify.
    TooManyCircuits,
    /// More instances than one batch verification may verify.
    TooManyInstances,
    /// The size in bits of the input could not be determined.
    UnknownSize,
    /// The size in bits of the input is not a multiple of eight.
    NotByteAligned,
    /// The destination type is not one that the variant produces.
    DestinationType,
    /// The variant is not available.
    NotImplemented,
    /// The declared type of the operand is not one that the variant takes.
    OperandType,
    /// The size in bits of the value does not match the length of the array of bits.
    SizeMismatch,
    /// A lossy cast produces a literal type only.
    LossyCastTarget,
    /// The struct or record that the instruction produces is not defined.
    UndefinedType,
    /// Fewer inputs than the produced type holds at least.
    TooFewInputs,
    /// More inputs than the produced type may hold.
    TooManyInputs,
    /// Whether the type of the input at this position is the expected one could not be decided.
    UnresolvedType(usize),
    /// A cast may not produce a record of another program.
    ExternalRecordCast,
}

/// The boolean register type.
pub open spec fn boolean_type() -> RegisterTypeView {
    RegisterTypeView::Plaintext(PlaintextTypeView::Literal(LiteralType::Boolean))
}

fn boolean() -> (r: RegisterType)
    ensures
        r@ == boolean_type(),
{
    RegisterType::Plaintext(PlaintextType::Literal(LiteralType::Boolean))
}

/// Why a `snark.verify` instruction of the variant refuses the input types, if it does. The
/// inputs are the verifying keys (a byte array, or a 2-dimensional one for a batch), the
/// Varuna version (a `u8`), the public inputs (an array of fields, or a 3-dimensional one
/// for a batch) and the proof (a byte array).
pub open spec fn snark_verify_error(variant: SnarkVerifyVariant, ts: Seq<RegisterTypeView>) -> Option<TypeError> {
    if ts.len() != 4 {
        Some(TypeError::InputCount(4))
    } else {
        let batch = variant == SnarkVerifyVariant::VarunaBatch;
        let num_vks: int = if !batch {
            1
        } else {
            match ts[0] {
                RegisterTypeView::Plaintext(PlaintextTypeView::Array(_, n)) => n as int,
                _ => 0,
            }
        };
        if !is_nd_array(ts[0], LiteralType::U8, if batch { 2 } else { 1 }) {
            Some(TypeError::InputType(0))
        } else if ts[1] != RegisterTypeView::Plaintext(PlaintextTypeView::Literal(LiteralType::U8)) {
            Some(TypeError::InputType(1))
        } else if batch && (match ts[2] {
            RegisterTypeView::Plaintext(PlaintextTypeView::Array(e, _)) => !(*e is Array),
            _ => false,
        }) {
            Some(TypeError::InputType(2))
        } else if !is_nd_array(ts[2], LiteralType::Field, if batch { 3 } else { 1 }) {
            Some(TypeError::InputType(2))
        } else {
            let (num_circuits, num_instances): (int, int) = if !batch {
                (1, 1)
            } else {
                match ts[2] {
                    RegisterTypeView::Plaintext(PlaintextTypeView::Array(e, n)) => match *e {
                        PlaintextTypeView::Array(_, m) => (n as int, m * n),
                        _ => (0, 0),
                    },
                    _ => (0, 0),
                }
            };
            if num_circuits != num_vks {
                Some(TypeError::CircuitCount)
            } else if num_circuits > MAX_SNARK_VERIFY_CIRCUITS {
                Some(TypeError::TooManyCircuits)
            } else if num_instances > MAX_SNARK_VERIFY_INSTANCES {
                Some(TypeError::TooManyInstances)
            } else if array_of(ts[3], LiteralType::U8) is None {
                Some(TypeError::InputType(3))
            } else {
                None
            }
        }
    }
}

/// Returns the output types of a `snark.verify` instruction of the variant with the input
/// types: one boolean, or why the inputs are refused.
pub fn snark_verify_output_types(variant: SnarkVerifyVariant, input_types: &Vec<RegisterType>) -> (r: Result<
    Vec<RegisterType>,
    TypeError,
>)
    ensures
        match snark_verify_error(variant, register_types_view(input_types@)) {
            Some(e) => r == Err::<Vec<RegisterType>, TypeError>(e),
            None => r matches Ok(v) && register_types_view(v@) == seq![boolean_type()],
        },
{
    let ghost ts = register_types_view(input_types@);
    if input_types.len() != 4 {
        return Err(TypeError::InputCount(4));
    }
    assert(ts[0] == input_types@[0]@ && ts[1] == input_types@[1]@ && ts[2] == input_types@[2]@ && ts[3]
        == input_types@[3]@);
    let batch = variant == SnarkVerifyVariant::VarunaBatch;
    let num_vks: u64 = if !batch {
        1
    } else {
        match &input_types[0] {
            RegisterType::Plaintext(PlaintextType::Array(_, n)) => *n as u64,
            _ => 0,
        }
    };
    if !check_nd_array_type(&input_types[0], LiteralType::U8, if batch { 2 } else { 1 }) {
        return Err(TypeError::InputType(0));
    }
    let version_ok = match &input_types[1] {
        RegisterType::Plaintext(PlaintextType::Literal(LiteralType::U8)) => true,
        _ => false,
    };
    if !version_ok {
        return Err(TypeError::InputType(1));
    }
    let mut num_circuits: u64 = 1;
    let mut num_instances: u64 = 1;
    if batch {
        match &input_types[2] {
            RegisterType::Plaintext(PlaintextType::Array(e, n)) => {
                assert(ts[2] == RegisterTypeView::Plaintext(PlaintextTypeView::Array(Box::new((**e)@), *n)));
                match &**e {
                    PlaintextType::Array(_, m) => {
                        num_circuits = *n as u64;
                        assert((*m as u64) * (*n as u64) <= u64::MAX) by (nonlinear_arith)
                            requires
                                *m <= u32::MAX,
                                *n <= u32::MAX,
                        ;
                        num_instances = (*m as u64) * (*n as u64);
                    },
                    _ => {
                        assert(!((**e)@ is Array));
                        return Err(TypeError::InputType(2));
                    },
                }
            },
            _ => {
                num_circuits = 0;
                num_instances = 0;
            },
        }
    }
    if !check_nd_array_type(&input_types[2], LiteralType::Field, if batch { 3 } else { 1 }) {
        return Err(TypeError::InputType(2));
    }
    if num_circuits != num_vks {
        return Err(TypeError::CircuitCount);
    }
    if num_circuits > MAX_SNARK_VERIFY_CIRCUITS as u64 {
        return Err(TypeError::TooManyCircuits);
    }
    if num_instances > MAX_SNARK_VERIFY_INSTANCES as u64 {
        return Err(TypeError::TooManyInstances);
    }
    if array_of_literal(&input_types[3], LiteralType::U8).is_none() {
        return Err(TypeError::InputType(3));
    }
    let mut v: Vec<RegisterType> = Vec::new();
    v.push(boolean());
    assert(register_types_view(v@) =~= seq![boolean_type()]);
    Ok(v)
}

/// The variants that check an Ethereum address rather than a verifying key.
pub open spec fn is_eth(v: ECDSAVerifyVariant) -> bool {
    v == ECDSAVerifyVariant::DigestEth || v == ECDSAVerifyVariant::HashKeccak256Eth || v
        == ECDSAVerifyVariant::HashKeccak384Eth || v == ECDSAVerifyVariant::HashKeccak512Eth || v
        == ECDSAVerifyVariant::HashSha3_256Eth || v == ECDSAVerifyVariant::HashSha3_384Eth || v
        == ECDSAVerifyVariant::HashSha3_512Eth
}

/// Why an `ecdsa.verify` instruction of the variant refuses the input types, if it does. The
/// inputs are the signature (a 65-byte array), the verifying key (a 33-byte array) or the
/// Ethereum address (a 20-byte array), and the message: a 32-byte digest for the digest
/// variants, and otherwise a value whose size in bits (`message_bits`, as the program's
/// types give it, raw or not as the variant reads it) must be a multiple of eight where the
/// variant hashes bytes.
pub open spec fn ecdsa_verify_error(
    variant: ECDSAVerifyVariant,
    ts: Seq<RegisterTypeView>,
    message_bits: Option<u64>,
) -> Option<TypeError> {
    if ts.len() != 3 {
        Some(TypeError::InputCount(3))
    } else if array_of(ts[0], LiteralType::U8) != Some(65u32) {
        Some(TypeError::InputType(0))
    } else if array_of(ts[1], LiteralType::U8) != Some(if is_eth(variant) { 20u32 } else { 33u32 }) {
        Some(TypeError::InputType(1))
    } else if variant == ECDSAVerifyVariant::Digest || variant == ECDSAVerifyVariant::DigestEth {
        if array_of(ts[2], LiteralType::U8) != Some(32u32) {
            Some(TypeError::InputType(2))
        } else {
            None
        }
    } else if variant.spec_requires_byte_alignment() {
        match message_bits {
            None => Some(TypeError::UnknownSize),
            Some(b) => if b % 8 != 0 {
                Some(TypeError::NotByteAligned)
            } else {
                None
            },
        }
    } else {
        None
    }
}

fn is_eth_variant(v: ECDSAVerifyVariant) -> (r: bool)
    ensures
        r == is_eth(v),
{
    match v {
        ECDSAVerifyVariant::DigestEth | ECDSAVerifyVariant::HashKeccak256Eth | ECDSAVerifyVariant::HashKeccak384Eth
        | ECDSAVerifyVariant::HashKeccak512Eth | ECDSAVerifyVariant::HashSha3_256Eth
        | ECDSAVerifyVariant::HashSha3_384Eth | ECDSAVerifyVariant::HashSha3_512Eth => true,
        _ => false,
    }
}

fn has_byte_length(t: &RegisterType, len: usize) -> (r: bool)
    ensures
        r == (array_of(t@, LiteralType::U8) == Some(len as u32) && len <= u32::MAX),
{
    match array_of_literal(t, LiteralType::U8) {
        Some(n) => n as usize == len,
        None => false,
    }
}

/// Returns the output types of an `ecdsa.verify` instruction of the variant with the input
/// types: one boolean, or why the inputs are refused. `message_bits` is the size in bits of
/// the message's type as the program's types give it (`None` where it cannot be determined).
pub fn ecdsa_verify_output_types(
    variant: ECDSAVerifyVariant,
    input_types: &Vec<RegisterType>,
    message_bits: Option<u64>,
) -> (r: Result<Vec<RegisterType>, TypeError>)
    ensures
        match ecdsa_verify_error(variant, register_types_view(input_types@), message_bits) {
            Some(e) => r == Err::<Vec<RegisterType>, TypeError>(e),
            None => r matches Ok(v) && register_types_view(v@) == seq![boolean_type()],
        },
{
    let ghost ts = register_types_view(input_types@);
    if input_types.len() != 3 {
        return Err(TypeError::InputCount(3));
    }
    assert(ts[0] == input_types@[0]@ && ts[1] == input_types@[1]@ && ts[2] == input_types@[2]@);
    let (signature_size, key_size, address_size, digest_size) = crate::console::ecdsa_sizes();
    if !has_byte_length(&input_types[0], signature_size) {
        return Err(TypeError::InputType(0));
    }
    let expected = if is_eth_variant(variant) { address_size } else { key_size };
    if !has_byte_length(&input_types[1], expected) {
        return Err(TypeError::InputType(1));
    }
    if variant == ECDSAVerifyVariant::Digest || variant == ECDSAVerifyVariant::DigestEth {
        if !has_byte_length(&input_types[2], digest_size) {
            return Err(TypeError::InputType(2));
        }
    } else if variant.requires_byte_alignment() {
        match message_bits {
            None => return Err(TypeError::UnknownSize),
            Some(b) => if b % 8 != 0 {
                return Err(TypeError::NotByteAligned);
            },
        }
    }
    let mut v: Vec<RegisterType> = Vec::new();
    v.push(boolean());
    assert(register_types_view(v@) =~= seq![boolean_type()]);
    Ok(v)
}

/// A hash of this variant may produce a value of the plaintext type: a literal other than a
/// boolean, a string or an identifier for the hashes to values, an array of booleans for the
/// hashes to bits.
pub open spec fn is_valid_hash_destination(variant: HashVariant, t: PlaintextTypeView) -> bool {
    if variant.spec_index() <= 32 {
        match t {
            PlaintextTypeView::Literal(l) => l != LiteralType::Boolean && l != LiteralType::String && l
                != LiteralType::Identifier,
            _ => false,
        }
    } else {
        match t {
            PlaintextTypeView::Array(e, _) => *e == PlaintextTypeView::Literal(LiteralType::Boolean),
            _ => false,
        }
    }
}

/// Returns `true` if a `hash` instruction of the variant may produce the type: a literal
/// type other than a boolean, a string or an identifier for the variants that hash into a
/// literal, an array of booleans for those that hash into bits.
pub fn valid_hash_destination(variant: HashVariant, t: &PlaintextType) -> (r: bool)
    ensures
        r == is_valid_hash_destination(variant, t@),
{
    if variant.index() <= 32 {
        match t {
            PlaintextType::Literal(l) => *l != LiteralType::Boolean && *l != LiteralType::String && *l
                != LiteralType::Identifier,
            _ => false,
        }
    } else {
        match t {
            PlaintextType::Array(e, _) => is_literal(e, LiteralType::Boolean),
            _ => false,
        }
    }
}

/// The type holds a struct of another program: it is one, or it is an array of them.
pub open spec fn contains_external_struct(t: PlaintextTypeView) -> bool {
    innermost(t) is ExternalStruct
}

/// Returns `true` if the type holds a struct of another program.
pub fn plaintext_contains_external_struct(t: &PlaintextType) -> (r: bool)
    ensures
        r == contains_external_struct(t@),
{
    match innermost_of(t) {
        PlaintextType::ExternalStruct(..) => true,
        _ => false,
    }
}

/// Why a `hash` instruction of the variant with the given number of operands and destination
/// type refuses the input types, if it does. `input_bits` is the size in bits of the input's
/// type as the program's types give it (raw or not as the variant reads it), needed where the
/// variant hashes bytes.
pub open spec fn hash_error(
    variant: HashVariant,
    num_operands: usize,
    destination: PlaintextTypeView,
    ts: Seq<RegisterTypeView>,
    input_bits: Option<u64>,
) -> Option<TypeError> {
    if ts.len() != variant.spec_expected_num_operands() {
        Some(TypeError::InputCount(variant.spec_expected_num_operands() as usize))
    } else if num_operands != variant.spec_expected_num_operands() {
        Some(TypeError::OperandCount)
    } else if !is_valid_hash_destination(variant, destination) {
        Some(TypeError::DestinationType)
    } else if variant.spec_requires_byte_alignment() && variant.spec_expected_num_operands() != 1 {
        Some(TypeError::OperandCount)
    } else if variant.spec_requires_byte_alignment() && input_bits is None {
        Some(TypeError::UnknownSize)
    } else if variant.spec_requires_byte_alignment() && input_bits->0 % 8 != 0 {
        Some(TypeError::NotByteAligned)
    } else if variant == HashVariant::HashManyPSD2 || variant == HashVariant::HashManyPSD4 || variant
        == HashVariant::HashManyPSD8 {
        Some(TypeError::NotImplemented)
    } else {
        None
    }
}

fn copy_identifier(n: &Identifier) -> (r: Identifier)
    ensures
        r@ == n@,
{
    Identifier { name: n.name.clone() }
}

pub(crate) fn copy_plaintext_type(t: &PlaintextType) -> (r: PlaintextType)
    ensures
        r@ == t@,
    decreases t,
{
    match t {
        PlaintextType::Literal(l) => PlaintextType::Literal(*l),
        PlaintextType::Struct(n) => PlaintextType::Struct(copy_identifier(n)),
        PlaintextType::ExternalStruct(p, n) => PlaintextType::ExternalStruct(
            ProgramID { name: p.name.clone(), network: p.network.clone() },
            copy_identifier(n),
        ),
        PlaintextType::Array(e, n) => PlaintextType::Array(Box::new(copy_plaintext_type(e)), *n),
    }
}

/// Returns the output types of a `hash` instruction of the variant with the given number of
/// operands and destination type: the destination type, or why the inputs are refused.
pub fn hash_output_types(
    variant: HashVariant,
    num_operands: usize,
    destination_type: &PlaintextType,
    input_types: &Vec<RegisterType>,
    input_bits: Option<u64>,
) -> (r: Result<Vec<RegisterType>, TypeError>)
    ensures
        match hash_error(variant, num_operands, destination_type@, register_types_view(input_types@), input_bits) {
            Some(e) => r == Err::<Vec<RegisterType>, TypeError>(e),
            None => r matches Ok(v) && register_types_view(v@) == seq![
                RegisterTypeView::Plaintext(destination_type@),
            ],
        },
{
    let expected = variant.expected_num_operands();
    if input_types.len() != expected {
        return Err(TypeError::InputCount(expected));
    }
    if num_operands != expected {
        return Err(TypeError::OperandCount);
    }
    if !valid_hash_destination(variant, destination_type) {
        return Err(TypeError::DestinationType);
    }
    if variant.requires_byte_alignment() {
        if expected != 1 {
            return Err(TypeError::OperandCount);
        }
        match input_bits {
            None => return Err(TypeError::UnknownSize),
            Some(b) => if b % 8 != 0 {
                return Err(TypeError::NotByteAligned);
            },
        }
    }
    if variant == HashVariant::HashManyPSD2 || variant == HashVariant::HashManyPSD4 || variant
        == HashVariant::HashManyPSD8 {
        return Err(TypeError::NotImplemented);
    }
    let mut v: Vec<RegisterType> = Vec::new();
    v.push(RegisterType::Plaintext(copy_plaintext_type(destination_type)));
    assert(register_types_view(v@) =~= seq![RegisterTypeView::Plaintext(destination_type@)]);
    Ok(v)
}

} // verus!
