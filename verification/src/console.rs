//! The calls of this crate into the `snarkvm-console` library: the grammar of identifiers,
//! program IDs, literals, registers and types, whitespace and comments, and the network limits.
//!
//! Each parser of console is named by an uninterpreted function of the text it is given.
//! Such a name describes the parse by the length of the text that the parser leaves over
//! (console's parsers return a suffix of their input) and by plain values read from the
//! parsed object.
use vstd::prelude::*;

use snarkvm_console::network::prelude::{
    FromBits, FromBytes, Parser, Sanitizer, ToBits, ToBitsRaw, ToBytes, ToFields, ToFieldsRaw, Zero,
};
use snarkvm_console::network::{MainnetV0, Network};
use snarkvm_console::program::{
    FinalizeType, Identifier, Literal, LiteralType, Locator, Plaintext, PlaintextType, ProgramID, RecordType, Register,
    RegisterType, StructType, U32, ValueType,
};
use snarkvm_console::algorithms::ECDSASignature;
use snarkvm_synthesizer_snark::{Proof, VerifyingKey};
use snarkvm_console::types::{Field, Group, Scalar};
use std::str::FromStr;

use crate::operand::ProgramIDView;
use crate::plaintext_bits::{StructTable, StructTableView};
use crate::types::{literal_type_of_id, nest_arrays, PlaintextTypeView};

verus! {

/// Console's `Sanitizer::parse` on the text: `None` if it rejects it, otherwise the length of
/// the text left after the leading whitespace and comments.
pub uninterp spec fn console_sanitize(text: Seq<char>) -> Option<nat>;

/// Console's `Sanitizer::parse_whitespaces` on the text: `None` if it rejects it, otherwise the
/// length of the text left after the leading whitespace.
pub uninterp spec fn console_whitespace(text: Seq<char>) -> Option<nat>;

/// Console's `Identifier::parse` on the text: the length of the rest and the text of the
/// identifier.
pub uninterp spec fn console_identifier(text: Seq<char>) -> Option<(nat, Seq<char>)>;

/// Console's `ProgramID::parse` on the text: the length of the rest, and the texts of the
/// program's name and of its network.
pub uninterp spec fn console_program_id(text: Seq<char>) -> Option<(nat, Seq<char>, Seq<char>)>;

/// Console's `Literal::parse` on the text: the length of the rest and the printed literal.
pub uninterp spec fn console_literal(text: Seq<char>) -> Option<(nat, Seq<char>)>;

/// Console's `Register::parse` on the text: the length of the rest, the register's locator,
/// whether it is a plain locator (no member or index access), and the printed register.
pub uninterp spec fn console_register(text: Seq<char>) -> Option<(nat, u64, bool, Seq<char>)>;

/// Console's `U32::parse` on the text: the length of the rest and the parsed integer.
pub uninterp spec fn console_u32(text: Seq<char>) -> Option<(nat, u32)>;

/// Skips leading whitespace and comments with console's `Sanitizer::parse`.
#[verifier::external_body]
pub(crate) fn sanitize(text: &[char]) -> (r: Option<usize>)
    ensures
        r is Some <==> console_sanitize(text@) is Some,
        r matches Some(k) ==> console_sanitize(text@) == Some(k as nat) && k <= text@.len(),
{
    let s: String = text.iter().collect();
    match Sanitizer::parse(&s) {
        Ok((rest, _)) => Some(rest.chars().count()),
        Err(_) => None,
    }
}

/// Skips leading whitespace with console's `Sanitizer::parse_whitespaces`.
#[verifier::external_body]
pub(crate) fn whitespace(text: &[char]) -> (r: Option<usize>)
    ensures
        r is Some <==> console_whitespace(text@) is Some,
        r matches Some(k) ==> console_whitespace(text@) == Some(k as nat) && k <= text@.len(),
{
    let s: String = text.iter().collect();
    match Sanitizer::parse_whitespaces(&s) {
        Ok((rest, _)) => Some(rest.chars().count()),
        Err(_) => None,
    }
}

/// Parses an identifier with console's `Identifier::parse`.
#[verifier::external_body]
pub(crate) fn identifier(text: &[char]) -> (r: Option<(usize, String)>)
    ensures
        r is Some <==> console_identifier(text@) is Some,
        r matches Some((k, id)) ==> console_identifier(text@) == Some((k as nat, id@))
            && k <= text@.len(),
{
    let s: String = text.iter().collect();
    match Identifier::<MainnetV0>::parse(&s) {
        Ok((rest, id)) => Some((rest.chars().count(), id.to_string())),
        Err(_) => None,
    }
}

/// Parses a program ID with console's `ProgramID::parse`.
#[verifier::external_body]
pub(crate) fn program_id(text: &[char]) -> (r: Option<(usize, String, String)>)
    ensures
        r is Some <==> console_program_id(text@) is Some,
        r matches Some((k, name, network)) ==> console_program_id(text@) == Some(
            (k as nat, name@, network@),
        ) && k <= text@.len(),
{
    let s: String = text.iter().collect();
    match ProgramID::<MainnetV0>::parse(&s) {
        Ok((rest, id)) => Some((rest.chars().count(), id.name().to_string(), id.network().to_string())),
        Err(_) => None,
    }
}

/// Parses a literal with console's `Literal::parse`.
#[verifier::external_body]
pub(crate) fn literal(text: &[char]) -> (r: Option<(usize, String)>)
    ensures
        r is Some <==> console_literal(text@) is Some,
        r matches Some((k, lit)) ==> console_literal(text@) == Some((k as nat, lit@))
            && k <= text@.len(),
{
    let s: String = text.iter().collect();
    match Literal::<MainnetV0>::parse(&s) {
        Ok((rest, literal)) => Some((rest.chars().count(), literal.to_string())),
        Err(_) => None,
    }
}

/// Parses a register with console's `Register::parse`.
#[verifier::external_body]
pub(crate) fn register(text: &[char]) -> (r: Option<(usize, u64, bool, String)>)
    ensures
        r is Some <==> console_register(text@) is Some,
        r matches Some((k, locator, plain, printed)) ==> console_register(text@) == Some(
            (k as nat, locator, plain, printed@),
        ) && k <= text@.len(),
{
    let s: String = text.iter().collect();
    match Register::<MainnetV0>::parse(&s) {
        Ok((rest, register)) => {
            let printed = register.to_string();
            match register {
                Register::Locator(locator) => Some((rest.chars().count(), locator, true, printed)),
                Register::Access(locator, _) => Some((rest.chars().count(), locator, false, printed)),
            }
        }
        Err(_) => None,
    }
}

/// Parses an unsigned 32-bit integer literal (such as `5u32`) with console's `U32::parse`.
#[verifier::external_body]
pub(crate) fn u32_literal(text: &[char]) -> (r: Option<(usize, u32)>)
    ensures
        r is Some <==> console_u32(text@) is Some,
        r matches Some((k, v)) ==> console_u32(text@) == Some((k as nat, v)) && k <= text@.len(),
{
    let s: String = text.iter().collect();
    match U32::<MainnetV0>::parse(&s) {
        Ok((rest, v)) => Some((rest.chars().count(), *v)),
        Err(_) => None,
    }
}

/// The printed generator literal of the literal type with the given name, as console's
/// `LiteralType::from_str` and `Group::generator()` give it: `None` unless the name is that of
/// the group type.
pub uninterp spec fn console_generator(literal_type: Seq<char>) -> Option<Seq<char>>;

/// Returns the printed generator literal of the named literal type (only the group type has
/// one).
#[verifier::external_body]
pub(crate) fn generator(literal_type: &[char]) -> (r: Option<String>)
    ensures
        r is Some <==> console_generator(literal_type@) is Some,
        r matches Some(t) ==> console_generator(literal_type@) == Some(t@),
{
    let s: String = literal_type.iter().collect();
    match LiteralType::from_str(&s) {
        Ok(LiteralType::Group) => Some(Literal::<MainnetV0>::Group(Group::generator()).to_string()),
        _ => None,
    }
}

/// Console's `FinalizeType::parse` on the text: the length of the rest, whether the type is a
/// plaintext type (rather than a future), and the printed type.
pub uninterp spec fn console_finalize_type(text: Seq<char>) -> Option<(nat, bool, Seq<char>)>;

/// Parses a finalize type (such as `u64.public` or `credits.aleo/mint.future`) with console's
/// `FinalizeType::parse`.
#[verifier::external_body]
pub(crate) fn finalize_type(text: &[char]) -> (r: Option<(usize, bool, String)>)
    ensures
        r is Some <==> console_finalize_type(text@) is Some,
        r matches Some((k, plaintext, printed)) ==> console_finalize_type(text@) == Some(
            (k as nat, plaintext, printed@),
        ) && k <= text@.len(),
{
    let s: String = text.iter().collect();
    match FinalizeType::<MainnetV0>::parse(&s) {
        Ok((rest, t)) => {
            let plaintext = matches!(t, FinalizeType::Plaintext(_));
            Some((rest.chars().count(), plaintext, t.to_string()))
        }
        Err(_) => None,
    }
}

/// The variants of console's `ValueType`.
#[derive(Clone, Copy, Debug, PartialEq, Eq, Structural)]
pub enum ValueKind {
    Constant,
    Public,
    Private,
    Record,
    ExternalRecord,
    Future,
    DynamicRecord,
    DynamicFuture,
}

/// Console's `ValueType::parse` on the text: the length of the rest, the variant, and the
/// printed type.
pub uninterp spec fn console_value_type(text: Seq<char>) -> Option<(nat, ValueKind, Seq<char>)>;

/// Parses a value type (such as `field.private` or `token.record`) with console's
/// `ValueType::parse`.
#[verifier::external_body]
pub(crate) fn value_type(text: &[char]) -> (r: Option<(usize, ValueKind, String)>)
    ensures
        r is Some <==> console_value_type(text@) is Some,
        r matches Some((k, kind, printed)) ==> console_value_type(text@) == Some(
            (k as nat, kind, printed@),
        ) && k <= text@.len(),
{
    let s: String = text.iter().collect();
    let (rest, t) = match ValueType::<MainnetV0>::parse(&s) { Ok(found) => found, Err(_) => return None };
    let kind = match &t {
        ValueType::Constant(_) => ValueKind::Constant, ValueType::Public(_) => ValueKind::Public,
        ValueType::Private(_) => ValueKind::Private, ValueType::Record(_) => ValueKind::Record,
        ValueType::ExternalRecord(_) => ValueKind::ExternalRecord, ValueType::Future(_) => ValueKind::Future,
        ValueType::DynamicRecord => ValueKind::DynamicRecord, ValueType::DynamicFuture => ValueKind::DynamicFuture,
    };
    Some((rest.chars().count(), kind, t.to_string()))
}

/// Console's `RegisterType::parse` on the text: the length of the rest and the printed type.
pub uninterp spec fn console_register_type(text: Seq<char>) -> Option<(nat, Seq<char>)>;

/// Parses a register type (such as `field` or `token.record`) with console's
/// `RegisterType::parse`.
#[verifier::external_body]
pub(crate) fn register_type(text: &[char]) -> (r: Option<(usize, String)>)
    ensures
        r is Some <==> console_register_type(text@) is Some,
        r matches Some((k, printed)) ==> console_register_type(text@) == Some((k as nat, printed@))
            && k <= text@.len(),
{
    let s: String = text.iter().collect();
    match RegisterType::<MainnetV0>::parse(&s) {
        Ok((rest, t)) => Some((rest.chars().count(), t.to_string())),
        Err(_) => None,
    }
}

/// Console's `StructType::parse` on the text: the length of the rest, the struct's name and
/// the printed struct definition.
pub uninterp spec fn console_struct_type(text: Seq<char>) -> Option<(nat, Seq<char>, Seq<char>)>;

/// Parses a struct definition (`struct {name}:` and its members) with console's
/// `StructType::parse`.
#[verifier::external_body]
pub(crate) fn struct_type(text: &[char]) -> (r: Option<(usize, String, String)>)
    ensures
        r is Some <==> console_struct_type(text@) is Some,
        r matches Some((k, name, printed)) ==> console_struct_type(text@) == Some(
            (k as nat, name@, printed@),
        ) && k <= text@.len(),
{
    let s: String = text.iter().collect();
    match StructType::<MainnetV0>::parse(&s) {
        Ok((rest, t)) => Some((rest.chars().count(), t.name().to_string(), t.to_string())),
        Err(_) => None,
    }
}

/// Console's `RecordType::parse` on the text: the length of the rest, the record's name and
/// the printed record definition.
pub uninterp spec fn console_record_type(text: Seq<char>) -> Option<(nat, Seq<char>, Seq<char>)>;

/// Parses a record definition (`record {name}:`, its owner and its entries) with console's
/// `RecordType::parse`.
#[verifier::external_body]
pub(crate) fn record_type(text: &[char]) -> (r: Option<(usize, String, String)>)
    ensures
        r is Some <==> console_record_type(text@) is Some,
        r matches Some((k, name, printed)) ==> console_record_type(text@) == Some(
            (k as nat, name@, printed@),
        ) && k <= text@.len(),
{
    let s: String = text.iter().collect();
    match RecordType::<MainnetV0>::parse(&s) {
        Ok((rest, t)) => Some((rest.chars().count(), t.name().to_string(), t.to_string())),
        Err(_) => None,
    }
}

/// The limits of the network that programs are checked against.
#[derive(Clone, Copy, Debug, PartialEq, Eq)]
pub struct Limits {
    pub max_inputs: usize,
    pub max_outputs: usize,
    pub max_commands: usize,
    pub max_instructions: usize,
    pub max_positions: usize,
    pub max_calls: usize,
    pub max_imports: usize,
    pub max_structs: usize,
    pub max_records: usize,
    pub max_closures: usize,
    pub max_functions: usize,
    pub max_views: usize,
    pub max_writes: u16,
    pub max_mappings: usize,
    pub max_program_size: usize,
}

/// The limits of the main network, as console's `Network` trait defines them.
pub open spec fn mainnet_limits() -> Limits {
    Limits {
        max_inputs: 16,
        max_outputs: 16,
        max_commands: 65535,
        max_instructions: 65535,
        max_positions: 255,
        max_calls: 32,
        max_imports: 64,
        max_structs: 310,
        max_records: 310,
        max_closures: 62,
        max_functions: 31,
        max_views: 62,
        max_writes: 32,
        max_mappings: 128,
        max_program_size: 2048000,
    }
}

/// The limits of scopes among the constants of console's `Network` trait for the main
/// network: `MAX_INPUTS`, `MAX_OUTPUTS`, `MAX_COMMANDS`, `MAX_INSTRUCTIONS`, `MAX_POSITIONS`
/// and `MAX_CALLS`, in this order.
#[verifier::external_body]
fn scope_limits() -> (r: (usize, usize, usize, usize, usize, usize))
    ensures
        r == (16usize, 16usize, 65535usize, 65535usize, 255usize, 32usize),
{
    (
        MainnetV0::MAX_INPUTS,
        MainnetV0::MAX_OUTPUTS,
        MainnetV0::MAX_COMMANDS,
        MainnetV0::MAX_INSTRUCTIONS,
        MainnetV0::MAX_POSITIONS,
        MainnetV0::MAX_CALLS,
    )
}

/// The limits of programs among the constants of console's `Network` trait for the main
/// network: `MAX_IMPORTS`, `MAX_STRUCTS`, `MAX_RECORDS`, `MAX_CLOSURES`, `MAX_FUNCTIONS` and
/// `MAX_VIEWS`, in this order.
#[verifier::external_body]
fn program_limits() -> (r: (usize, usize, usize, usize, usize, usize))
    ensures
        r == (64usize, 310usize, 310usize, 62usize, 31usize, 62usize),
{
    (
        MainnetV0::MAX_IMPORTS,
        MainnetV0::MAX_STRUCTS,
        MainnetV0::MAX_RECORDS,
        MainnetV0::MAX_CLOSURES,
        MainnetV0::MAX_FUNCTIONS,
        MainnetV0::MAX_VIEWS,
    )
}

/// Console's `Network::LATEST_MAX_WRITES` for the main network.
#[verifier::external_body]
fn latest_max_writes() -> (r: u16)
    ensures
        r == 32,
{
    MainnetV0::LATEST_MAX_WRITES()
}

/// Console's `Network::LATEST_MAX_MAPPINGS` for the main network.
#[verifier::external_body]
fn latest_max_mappings() -> (r: usize)
    ensures
        r == 128,
{
    MainnetV0::LATEST_MAX_MAPPINGS()
}

/// Console's `Network::LATEST_MAX_PROGRAM_SIZE` for the main network.
#[verifier::external_body]
fn latest_max_program_size() -> (r: usize)
    ensures
        r == 2048000,
{
    MainnetV0::LATEST_MAX_PROGRAM_SIZE()
}

/// Reads the limits of the main network from console.
pub fn network_limits() -> (r: Limits)
    ensures
        r == mainnet_limits(),
{
    let (max_inputs, max_outputs, max_commands, max_instructions, max_positions, max_calls) = scope_limits();
    let (max_imports, max_structs, max_records, max_closures, max_functions, max_views) = program_limits();
    Limits {
        max_inputs,
        max_outputs,
        max_commands,
        max_instructions,
        max_positions,
        max_calls,
        max_imports,
        max_structs,
        max_records,
        max_closures,
        max_functions,
        max_views,
        max_writes: latest_max_writes(),
        max_mappings: latest_max_mappings(),
        max_program_size: latest_max_program_size(),
    }
}

/// The bytes that console's `Literal::write_le` writes for the literal that console's
/// `Literal::from_str` reads from the text.
pub uninterp spec fn console_literal_bytes(text: Seq<char>) -> Option<Seq<u8>>;

/// Console's `Literal::read_le` on the bytes: the number of bytes left after the literal and
/// the printed literal.
pub uninterp spec fn console_read_literal(bytes: Seq<u8>) -> Option<(nat, Seq<char>)>;

/// Writes the literal of the text (read with console's `Literal::from_str`) with console's
/// `Literal::write_le`. There are bytes exactly when the whole text is a literal, and
/// console's `Literal::read_le` reads the literal back from them, whatever follows.
#[verifier::external_body]
pub(crate) fn literal_bytes(text: &[char]) -> (r: Option<Vec<u8>>)
    ensures
        r is Some <==> console_literal_bytes(text@) is Some,
        r matches Some(b) ==> console_literal_bytes(text@) == Some(b@),
        r is Some <==> (console_literal(text@) matches Some((k, _)) && k == 0),
        r matches Some(b) ==> forall|rest: Seq<u8>|
            #[trigger] console_read_literal(b@ + rest) == Some((rest.len(), (console_literal(text@)->0).1)),
{
    let s: String = text.iter().collect();
    match Literal::<MainnetV0>::from_str(&s) {
        Ok(literal) => literal.to_bytes_le().ok(),
        Err(_) => None,
    }
}

/// Reads a literal with console's `Literal::read_le`.
#[verifier::external_body]
pub(crate) fn read_literal(bytes: &[u8]) -> (r: Option<(usize, String)>)
    ensures
        r is Some <==> console_read_literal(bytes@) is Some,
        r matches Some((k, t)) ==> console_read_literal(bytes@) == Some((k as nat, t@)) && k <= bytes@.len(),
{
    let mut reader = bytes;
    match Literal::<MainnetV0>::read_le(&mut reader) {
        Ok(literal) => Some((reader.len(), literal.to_string())),
        Err(_) => None,
    }
}

/// The bytes that console's `Register::write_le` writes for the register that console's
/// `Register::from_str` reads from the text.
pub uninterp spec fn console_register_bytes(text: Seq<char>) -> Option<Seq<u8>>;

/// Console's `Register::read_le` on the bytes: the number of bytes left, the register's
/// locator, whether it is a plain locator, and the printed register.
pub uninterp spec fn console_read_register(bytes: Seq<u8>) -> Option<(nat, u64, bool, Seq<char>)>;

/// Writes the register of the text (read with console's `Register::from_str`) with console's
/// `Register::write_le`. There are bytes exactly when the whole text is a register, and
/// console's `Register::read_le` reads the register back from them, whatever follows.
#[verifier::external_body]
pub(crate) fn register_bytes(text: &[char]) -> (r: Option<Vec<u8>>)
    ensures
        r is Some <==> console_register_bytes(text@) is Some,
        r matches Some(b) ==> console_register_bytes(text@) == Some(b@),
        r is Some <==> (console_register(text@) matches Some((k, _, _, _)) && k == 0),
        r matches Some(b) ==> forall|rest: Seq<u8>|
            #[trigger] console_read_register(b@ + rest) == Some(
                (
                    rest.len(),
                    (console_register(text@)->0).1,
                    (console_register(text@)->0).2,
                    (console_register(text@)->0).3,
                ),
            ),
{
    let s: String = text.iter().collect();
    match Register::<MainnetV0>::from_str(&s) {
        Ok(register) => register.to_bytes_le().ok(),
        Err(_) => None,
    }
}

/// Reads a register with console's `Register::read_le`.
#[verifier::external_body]
pub(crate) fn read_register(bytes: &[u8]) -> (r: Option<(usize, u64, bool, String)>)
    ensures
        r is Some <==> console_read_register(bytes@) is Some,
        r matches Some((k, locator, plain, t)) ==> console_read_register(bytes@) == Some(
            (k as nat, locator, plain, t@),
        ) && k <= bytes@.len(),
{
    let mut reader = bytes;
    match Register::<MainnetV0>::read_le(&mut reader) {
        Ok(register) => {
            let printed = register.to_string();
            match register {
                Register::Locator(locator) => Some((reader.len(), locator, true, printed)),
                Register::Access(locator, _) => Some((reader.len(), locator, false, printed)),
            }
        }
        Err(_) => None,
    }
}

/// The bytes that console's `Identifier::write_le` writes for the identifier that console's
/// `Identifier::from_str` reads from the text.
pub uninterp spec fn console_identifier_bytes(text: Seq<char>) -> Option<Seq<u8>>;

/// Console's `Identifier::read_le` on the bytes: the number of bytes left and the identifier.
pub uninterp spec fn console_read_identifier(bytes: Seq<u8>) -> Option<(nat, Seq<char>)>;

/// Writes the identifier of the text (read with console's `Identifier::from_str`) with
/// console's `Identifier::write_le`. There are bytes exactly when the whole text is an
/// identifier, and console's `Identifier::read_le` reads it back from them, whatever follows.
#[verifier::external_body]
pub(crate) fn identifier_bytes(text: &[char]) -> (r: Option<Vec<u8>>)
    ensures
        r is Some <==> console_identifier_bytes(text@) is Some,
        r matches Some(b) ==> console_identifier_bytes(text@) == Some(b@),
        r is Some <==> (console_identifier(text@) matches Some((k, _)) && k == 0),
        r matches Some(b) ==> forall|rest: Seq<u8>|
            #[trigger] console_read_identifier(b@ + rest) == Some((rest.len(), (console_identifier(text@)->0).1)),
{
    let s: String = text.iter().collect();
    match Identifier::<MainnetV0>::from_str(&s) {
        Ok(identifier) => identifier.to_bytes_le().ok(),
        Err(_) => None,
    }
}

/// Reads an identifier with console's `Identifier::read_le`.
#[verifier::external_body]
pub(crate) fn read_identifier(bytes: &[u8]) -> (r: Option<(usize, String)>)
    ensures
        r is Some <==> console_read_identifier(bytes@) is Some,
        r matches Some((k, t)) ==> console_read_identifier(bytes@) == Some((k as nat, t@)) && k <= bytes@.len(),
{
    let mut reader = bytes;
    match Identifier::<MainnetV0>::read_le(&mut reader) {
        Ok(identifier) => Some((reader.len(), identifier.to_string())),
        Err(_) => None,
    }
}

/// The bytes that console's `ProgramID::write_le` writes for the program ID that console's
/// `ProgramID::from_str` reads from the text.
pub uninterp spec fn console_program_id_bytes(text: Seq<char>) -> Option<Seq<u8>>;

/// Console's `ProgramID::read_le` on the bytes: the number of bytes left, and the program's
/// name and network.
pub uninterp spec fn console_read_program_id(bytes: Seq<u8>) -> Option<(nat, Seq<char>, Seq<char>)>;

/// Writes the program ID of the text (read with console's `ProgramID::from_str`) with
/// console's `ProgramID::write_le`. There are bytes exactly when the whole text is a program
/// ID, and console's `ProgramID::read_le` reads it back from them, whatever follows.
#[verifier::external_body]
pub(crate) fn program_id_bytes(text: &[char]) -> (r: Option<Vec<u8>>)
    ensures
        r is Some <==> console_program_id_bytes(text@) is Some,
        r matches Some(b) ==> console_program_id_bytes(text@) == Some(b@),
        r is Some <==> (console_program_id(text@) matches Some((k, _, _)) && k == 0),
        r matches Some(b) ==> forall|rest: Seq<u8>|
            #[trigger] console_read_program_id(b@ + rest) == Some(
                (rest.len(), (console_program_id(text@)->0).1, (console_program_id(text@)->0).2),
            ),
{
    let s: String = text.iter().collect();
    match ProgramID::<MainnetV0>::from_str(&s) {
        Ok(id) => id.to_bytes_le().ok(),
        Err(_) => None,
    }
}

/// Reads a program ID with console's `ProgramID::read_le`.
#[verifier::external_body]
pub(crate) fn read_program_id(bytes: &[u8]) -> (r: Option<(usize, String, String)>)
    ensures
        r is Some <==> console_read_program_id(bytes@) is Some,
        r matches Some((k, name, network)) ==> console_read_program_id(bytes@) == Some(
            (k as nat, name@, network@),
        ) && k <= bytes@.len(),
{
    let mut reader = bytes;
    match ProgramID::<MainnetV0>::read_le(&mut reader) {
        Ok(id) => Some((reader.len(), id.name().to_string(), id.network().to_string())),
        Err(_) => None,
    }
}

/// The sizes in bytes that console's `ECDSASignature` fixes: `SIGNATURE_SIZE_IN_BYTES` (a
/// signature with its recovery byte), `VERIFYING_KEY_SIZE_IN_BYTES` (a compressed key),
/// `ETHEREUM_ADDRESS_SIZE_IN_BYTES` and `PREHASH_SIZE_IN_BYTES` (a digest), in this order.
#[verifier::external_body]
pub(crate) fn ecdsa_sizes() -> (r: (usize, usize, usize, usize))
    ensures
        r == (65usize, 33usize, 20usize, 32usize),
{
    (
        ECDSASignature::SIGNATURE_SIZE_IN_BYTES,
        ECDSASignature::VERIFYING_KEY_SIZE_IN_BYTES,
        ECDSASignature::ETHEREUM_ADDRESS_SIZE_IN_BYTES,
        ECDSASignature::PREHASH_SIZE_IN_BYTES,
    )
}

/// Console's `LiteralType::parse` on the text: the length of the rest and the name of the
/// literal type.
pub uninterp spec fn console_literal_type(text: Seq<char>) -> Option<(nat, Seq<char>)>;

/// Parses a literal type (such as `field` or `u64`) with console's `LiteralType::parse`.
#[verifier::external_body]
pub(crate) fn literal_type(text: &[char]) -> (r: Option<(usize, String)>)
    ensures
        r is Some <==> console_literal_type(text@) is Some,
        r matches Some((k, name)) ==> console_literal_type(text@) == Some((k as nat, name@)) && k <= text@.len(),
{
    let s: String = text.iter().collect();
    match LiteralType::parse(&s) {
        Ok((rest, t)) => Some((rest.chars().count(), t.to_string())),
        Err(_) => None,
    }
}

/// The innermost part of a parsed plaintext type: a literal type, by console's numeric id of
/// literal types (`LiteralType::type_id`), a struct of this program, or a struct of another
/// program (the program's name and network, and the struct's name).
#[derive(Clone, Debug, PartialEq, Eq)]
pub enum TypeBase {
    Literal(u8),
    Struct(String),
    External(String, String, String),
}

/// The plaintext type that the innermost part stands for.
pub open spec fn type_base_view(b: TypeBase) -> PlaintextTypeView {
    match b {
        TypeBase::Literal(id) => PlaintextTypeView::Literal(literal_type_of_id(id)),
        TypeBase::Struct(n) => PlaintextTypeView::Struct(n@),
        TypeBase::External(name, network, n) => PlaintextTypeView::ExternalStruct(
            ProgramIDView { name: name@, network: network@ },
            n@,
        ),
    }
}

/// Console's `PlaintextType::parse` on the text: the length of the rest and the parsed type.
pub uninterp spec fn console_plaintext_type(text: Seq<char>) -> Option<(nat, PlaintextTypeView)>;

/// Parses a plaintext type (such as `u64`, `token`, `credits.aleo/token` or
/// `[[boolean; 8u32]; 4u32]`) with console's `PlaintextType::parse`. The type is handed back
/// as its innermost part and the lengths of the arrays around it, outermost first; a literal
/// type is handed back by its numeric id, which console gives in the order of its variants,
/// the order of this crate's `LiteralType`.
#[verifier::external_body]
pub(crate) fn plaintext_type(text: &[char]) -> (r: Option<(usize, TypeBase, Vec<u32>)>)
    ensures
        r is Some <==> console_plaintext_type(text@) is Some,
        r matches Some((k, base, lengths)) ==> k <= text@.len() && (base matches TypeBase::Literal(id) ==> id < 18)
            && console_plaintext_type(text@) == Some((k as nat, nest_arrays(type_base_view(base), lengths@))),
{
    let s = String::from_iter(text);
    let (rest, t) = PlaintextType::<MainnetV0>::parse(&s).ok()?;
    let (mut inner, mut lengths) = (&t, Vec::new());
    while let PlaintextType::Array(a) = inner { lengths.push(**a.length()); inner = a.next_element_type(); }
    let base = match inner {
        PlaintextType::Literal(l) => TypeBase::Literal(l.type_id()),
        PlaintextType::Struct(n) => TypeBase::Struct(n.to_string()),
        PlaintextType::ExternalStruct(l) => TypeBase::External(l.name().to_string(), l.network().to_string(), l.resource().to_string()),
        _ => return None,
    };
    Some((rest.chars().count(), base, lengths))
}

/// Console's `Locator::parse` on the text: the length of the rest, the texts of the program's
/// name and network, and the text of the resource's name.
pub uninterp spec fn console_locator(text: Seq<char>) -> Option<(nat, Seq<char>, Seq<char>, Seq<char>)>;

/// Parses a locator (such as `credits.aleo/token`) with console's `Locator::parse`.
#[verifier::external_body]
pub(crate) fn locator(text: &[char]) -> (r: Option<(usize, String, String, String)>)
    ensures
        r is Some <==> console_locator(text@) is Some,
        r matches Some((k, name, network, resource)) ==> console_locator(text@) == Some(
            (k as nat, name@, network@, resource@),
        ) && k <= text@.len(),
{
    let s = String::from_iter(text);
    let (rest, l) = Locator::<MainnetV0>::parse(&s).ok()?;
    Some((rest.chars().count(), l.name().to_string(), l.network().to_string(), l.resource().to_string()))
}

/// The limits on the sizes of structs, arrays and records among the constants of console's
/// `Network` trait for the main network.
#[derive(Clone, Copy, Debug, PartialEq, Eq)]
pub struct DataLimits {
    pub min_struct_entries: usize,
    pub max_struct_entries: usize,
    pub min_array_elements: usize,
    pub max_array_elements: usize,
    pub min_record_entries: usize,
    pub max_record_entries: usize,
    pub max_data_depth: usize,
}

/// The limits on data sizes of the main network, as console's `Network` trait defines them.
pub open spec fn mainnet_data_limits() -> DataLimits {
    DataLimits {
        min_struct_entries: 1,
        max_struct_entries: 32,
        min_array_elements: 1,
        max_array_elements: 2048,
        min_record_entries: 1,
        max_record_entries: 33,
        max_data_depth: 32,
    }
}

/// Console's `MIN_STRUCT_ENTRIES`, `MAX_STRUCT_ENTRIES`, `MIN_ARRAY_ELEMENTS`,
/// `LATEST_MAX_ARRAY_ELEMENTS()`, `MIN_RECORD_ENTRIES`, `MAX_RECORD_ENTRIES` and
/// `MAX_DATA_DEPTH` for the main network, in this order.
#[verifier::external_body]
fn data_limit_values() -> (r: (usize, usize, usize, usize, usize, usize, usize))
    ensures
        r == (1usize, 32usize, 1usize, 2048usize, 1usize, 33usize, 32usize),
{
    (
        MainnetV0::MIN_STRUCT_ENTRIES,
        MainnetV0::MAX_STRUCT_ENTRIES,
        MainnetV0::MIN_ARRAY_ELEMENTS,
        MainnetV0::LATEST_MAX_ARRAY_ELEMENTS(),
        MainnetV0::MIN_RECORD_ENTRIES,
        MainnetV0::MAX_RECORD_ENTRIES,
        MainnetV0::MAX_DATA_DEPTH,
    )
}

/// Reads the limits on data sizes of the main network from console.
pub fn data_limits() -> (r: DataLimits)
    ensures
        r == mainnet_data_limits(),
{
    let (
        min_struct_entries,
        max_struct_entries,
        min_array_elements,
        max_array_elements,
        min_record_entries,
        max_record_entries,
        max_data_depth,
    ) = data_limit_values();
    DataLimits {
        min_struct_entries,
        max_struct_entries,
        min_array_elements,
        max_array_elements,
        min_record_entries,
        max_record_entries,
        max_data_depth,
    }
}

/// The bytes that console's `PlaintextType::write_le` writes for the type that console's
/// `PlaintextType::from_str` reads from the text.
pub uninterp spec fn console_plaintext_type_bytes(text: Seq<char>) -> Option<Seq<u8>>;

/// Console's `PlaintextType::read_le` on the bytes: the number of bytes left and the type.
pub uninterp spec fn console_read_plaintext_type(bytes: Seq<u8>) -> Option<(nat, PlaintextTypeView)>;

/// Writes the plaintext type of the text (read with console's `PlaintextType::from_str`) with
/// console's `PlaintextType::write_le`. There are bytes exactly when the whole text is a
/// plaintext type, and console's `PlaintextType::read_le` reads the type back from them,
/// whatever follows.
#[verifier::external_body]
pub(crate) fn plaintext_type_bytes(text: &[char]) -> (r: Option<Vec<u8>>)
    ensures
        r is Some <==> console_plaintext_type_bytes(text@) is Some,
        r matches Some(b) ==> console_plaintext_type_bytes(text@) == Some(b@),
        r is Some <==> (console_plaintext_type(text@) matches Some((k, _)) && k == 0),
        r matches Some(b) ==> forall|rest: Seq<u8>|
            #[trigger] console_read_plaintext_type(b@ + rest) == Some(
                (rest.len(), (console_plaintext_type(text@)->0).1),
            ),
{
    let s = String::from_iter(text);
    PlaintextType::<MainnetV0>::from_str(&s).ok()?.to_bytes_le().ok()
}

/// Reads a plaintext type with console's `PlaintextType::read_le`, handing it back as
/// `plaintext_type` does: its innermost part and the lengths of the arrays around it.
#[verifier::external_body]
pub(crate) fn read_plaintext_type(bytes: &[u8]) -> (r: Option<(usize, TypeBase, Vec<u32>)>)
    ensures
        r is Some <==> console_read_plaintext_type(bytes@) is Some,
        r matches Some((k, base, lengths)) ==> k <= bytes@.len() && (base matches TypeBase::Literal(id) ==> id < 18)
            && console_read_plaintext_type(bytes@) == Some((k as nat, nest_arrays(type_base_view(base), lengths@))),
{
    let mut reader = bytes;
    let t = PlaintextType::<MainnetV0>::read_le(&mut reader).ok()?;
    let (mut inner, mut lengths) = (&t, Vec::new());
    while let PlaintextType::Array(a) = inner { lengths.push(**a.length()); inner = a.next_element_type(); }
    let base = match inner {
        PlaintextType::Literal(l) => TypeBase::Literal(l.type_id()),
        PlaintextType::Struct(n) => TypeBase::Struct(n.to_string()),
        PlaintextType::ExternalStruct(l) => TypeBase::External(l.name().to_string(), l.network().to_string(), l.resource().to_string()),
        _ => return None,
    };
    Some((reader.len(), base, lengths))
}

/// The bytes that console's `ValueType::write_le` writes for the value type that console's
/// `ValueType::from_str` reads from the text.
pub uninterp spec fn console_value_type_bytes(text: Seq<char>) -> Option<Seq<u8>>;

/// Console's `ValueType::read_le` on the bytes: the number of bytes left, the variant and the
/// printed type.
pub uninterp spec fn console_read_value_type(bytes: Seq<u8>) -> Option<(nat, ValueKind, Seq<char>)>;

/// Writes the value type of the text (read with console's `ValueType::from_str`) with
/// console's `ValueType::write_le`. There are bytes exactly when the whole text is a value
/// type, and console's `ValueType::read_le` reads the type back from them, whatever follows.
#[verifier::external_body]
pub(crate) fn value_type_bytes(text: &[char]) -> (r: Option<Vec<u8>>)
    ensures
        r is Some <==> console_value_type_bytes(text@) is Some,
        r matches Some(b) ==> console_value_type_bytes(text@) == Some(b@),
        r is Some <==> (console_value_type(text@) matches Some((k, _, _)) && k == 0),
        r matches Some(b) ==> forall|rest: Seq<u8>|
            #[trigger] console_read_value_type(b@ + rest) == Some(
                (rest.len(), (console_value_type(text@)->0).1, (console_value_type(text@)->0).2),
            ),
{
    let s = String::from_iter(text);
    ValueType::<MainnetV0>::from_str(&s).ok()?.to_bytes_le().ok()
}

/// Reads a value type with console's `ValueType::read_le`.
#[verifier::external_body]
pub(crate) fn read_value_type(bytes: &[u8]) -> (r: Option<(usize, ValueKind, String)>)
    ensures
        r is Some <==> console_read_value_type(bytes@) is Some,
        r matches Some((k, kind, printed)) ==> console_read_value_type(bytes@) == Some((k as nat, kind, printed@))
            && k <= bytes@.len(),
{
    let mut reader = bytes;
    let t = ValueType::<MainnetV0>::read_le(&mut reader).ok()?;
    let kind = match &t {
        ValueType::Constant(_) => ValueKind::Constant, ValueType::Public(_) => ValueKind::Public,
        ValueType::Private(_) => ValueKind::Private, ValueType::Record(_) => ValueKind::Record,
        ValueType::ExternalRecord(_) => ValueKind::ExternalRecord, ValueType::Future(_) => ValueKind::Future,
        ValueType::DynamicRecord => ValueKind::DynamicRecord, ValueType::DynamicFuture => ValueKind::DynamicFuture,
    };
    Some((reader.len(), kind, t.to_string()))
}

/// Console's `hash_bhp768` of the main network on the bits, as the little-endian bytes of the
/// field element it returns (`Field::to_bytes_le`); `None` where the hash refuses the input.
pub uninterp spec fn console_bhp768_bytes(bits: Seq<bool>) -> Option<Seq<u8>>;

/// Hashes the bits with console's `hash_bhp768` of the main network and writes the result as
/// bytes.
#[verifier::external_body]
pub(crate) fn bhp768_bytes(bits: &[bool]) -> (r: Option<Vec<u8>>)
    ensures
        r is Some <==> console_bhp768_bytes(bits@) is Some,
        r matches Some(b) ==> console_bhp768_bytes(bits@) == Some(b@),
{
    MainnetV0::hash_bhp768(bits).ok()?.to_bytes_le().ok()
}

/// The bits (`to_bits_le`) of the field element of the block hash that console's
/// `BlockHash::from_str` reads from the text, for the main network.
pub uninterp spec fn console_block_hash_bits(text: Seq<char>) -> Option<Seq<bool>>;

/// Reads a block hash (such as `ab1...`) with console's `BlockHash::from_str` and returns the
/// little-endian bits of its field element: there are 253 of them, the size of the field.
#[verifier::external_body]
pub(crate) fn block_hash_bits(text: &[char]) -> (r: Option<Vec<bool>>)
    ensures
        r is Some <==> console_block_hash_bits(text@) is Some,
        r matches Some(b) ==> console_block_hash_bits(text@) == Some(b@) && b@.len() == 253,
{
    let s = String::from_iter(text);
    Some((*<MainnetV0 as Network>::BlockHash::from_str(&s).ok()?).to_bits_le())
}

/// The bits of the field element of console's default block hash, the hash of zero: 253
/// zeros.
#[verifier::external_body]
pub(crate) fn default_block_hash_bits() -> (r: Vec<bool>)
    ensures
        r@ == Seq::new(253, |i: int| false),
{
    (*<MainnetV0 as Network>::BlockHash::default()).to_bits_le()
}

/// Console's `PlaintextType::size_in_bits`, for the main network, of the type that
/// `PlaintextType::from_str` reads from the text, with the struct definitions that the table
/// gives: `None` where console refuses (a text that is not a type, a struct that the table does
/// not define, data nested too deep, an overflow).
pub uninterp spec fn console_size_in_bits(text: Seq<char>, table: StructTableView) -> Option<nat>;

/// The number of bits that console's `to_bits_le` gives for a plaintext of the printed type,
/// computed by `PlaintextType::size_in_bits`. Console looks structs up through the table: the
/// program's own by name, those of other programs by program and name, each read from its
/// printed definition with `StructType::from_str`.
#[verifier::external_body]
pub(crate) fn size_in_bits(text: &str, table: &StructTable) -> (r: Option<usize>)
    ensures
        console_size_in_bits(text@, table@) == match r {
            Some(n) => Some(n as nat),
            None => None::<nat>,
        },
{
    let ty = PlaintextType::<MainnetV0>::from_str(text).ok()?;
    let local = |i: &Identifier<MainnetV0>| StructType::from_str(table.local_text(&i.to_string()));
    let external = |l: &Locator<MainnetV0>| {
        let (p, n, r) = (l.name().to_string(), l.network().to_string(), l.resource().to_string());
        StructType::from_str(table.external_text(&p, &n, &r))
    };
    ty.size_in_bits(&local, &external).ok()
}

/// Console's `PlaintextType::size_in_bits_raw`, for the main network, of the type that
/// `PlaintextType::from_str` reads from the text, with the struct definitions that the table
/// gives: `None` where console refuses.
pub uninterp spec fn console_size_in_bits_raw(text: Seq<char>, table: StructTableView) -> Option<nat>;

/// The number of bits that console's `to_bits_raw_le` gives for a plaintext of the printed
/// type, computed by `PlaintextType::size_in_bits_raw`, with the structs looked up as for
/// `size_in_bits`.
#[verifier::external_body]
pub(crate) fn size_in_bits_raw(text: &str, table: &StructTable) -> (r: Option<usize>)
    ensures
        console_size_in_bits_raw(text@, table@) == match r {
            Some(n) => Some(n as nat),
            None => None::<nat>,
        },
{
    let ty = PlaintextType::<MainnetV0>::from_str(text).ok()?;
    let local = |i: &Identifier<MainnetV0>| StructType::from_str(table.local_text(&i.to_string()));
    let external = |l: &Locator<MainnetV0>| {
        let (p, n, r) = (l.name().to_string(), l.network().to_string(), l.resource().to_string());
        StructType::from_str(table.external_text(&p, &n, &r))
    };
    ty.size_in_bits_raw(&local, &external).ok()
}

/// Console's `LiteralType::size_in_bits` for the main network, of the literal type with the id:
/// `None` if no literal type has the id.
pub uninterp spec fn console_literal_size(id: u8) -> Option<u16>;

/// The number of bits of a literal of the type with the id, from console's
/// `LiteralType::size_in_bits` for the main network.
#[verifier::external_body]
pub(crate) fn literal_size_in_bits(id: u8) -> (r: Option<u16>)
    ensures
        r == console_literal_size(id),
{
    Some(LiteralType::read_le(&[id][..]).ok()?.size_in_bits::<MainnetV0>())
}

/// Console's `Literal::from_bits_le` on the literal type id and the bits, for the main network:
/// the printed literal, or `None` where console refuses the bits.
pub uninterp spec fn console_literal_from_bits(id: u8, bits: Seq<bool>) -> Option<Seq<char>>;

/// Reads a literal of the type with the id from its little-endian bits with console's
/// `Literal::from_bits_le`, and returns it printed.
#[verifier::external_body]
pub(crate) fn literal_from_bits(id: u8, bits: &[bool]) -> (r: Option<String>)
    ensures
        console_literal_from_bits(id, bits@) == match r {
            Some(t) => Some(t@),
            None => None::<Seq<char>>,
        },
{
    Some(Literal::<MainnetV0>::from_bits_le(id, bits).ok()?.to_string())
}

/// Console's `Identifier::from_bits_le` on the bits: the identifier's text, or `None` where
/// console refuses the bits.
pub uninterp spec fn console_identifier_from_bits(bits: Seq<bool>) -> Option<Seq<char>>;

/// Reads an identifier from its little-endian bits with console's `Identifier::from_bits_le`.
#[verifier::external_body]
pub(crate) fn identifier_from_bits(bits: &[bool]) -> (r: Option<String>)
    ensures
        console_identifier_from_bits(bits@) == match r {
            Some(t) => Some(t@),
            None => None::<Seq<char>>,
        },
{
    Some(Identifier::<MainnetV0>::from_bits_le(bits).ok()?.to_string())
}

/// Console's `Identifier::size_in_bits` of the identifier that `Identifier::from_str` reads from
/// the text, or `None` if the text is not an identifier.
pub uninterp spec fn console_identifier_size(name: Seq<char>) -> Option<u8>;

/// The number of bits of the identifier, from console's `Identifier::size_in_bits`.
#[verifier::external_body]
pub(crate) fn identifier_size_in_bits(name: &str) -> (r: Option<u8>)
    ensures
        r == console_identifier_size(name@),
{
    Some(Identifier::<MainnetV0>::from_str(name).ok()?.size_in_bits())
}

/// The members of the struct that console's `StructType::from_str` reads from the text: the
/// name and the printed type of each, in order; `None` where console refuses the text.
pub uninterp spec fn console_struct_members(text: Seq<char>) -> Option<Seq<(Seq<char>, Seq<char>)>>;

/// Reads a struct definition with console's `StructType::from_str` and returns the name and the
/// printed type of each of its members, in order.
#[verifier::external_body]
pub(crate) fn struct_members(text: &str) -> (r: Option<Vec<(String, String)>>)
    ensures
        console_struct_members(text@) == match r {
            Some(m) => Some(m@.map_values(|x: (String, String)| (x.0@, x.1@))),
            None => None::<Seq<(Seq<char>, Seq<char>)>>,
        },
{
    let s = StructType::<MainnetV0>::from_str(text).ok()?;
    Some(s.members().iter().map(|(i, t)| (i.to_string(), t.to_string())).collect())
}

/// The bits that console's `to_bits_le` gives for the plaintext that `Plaintext::from_str`
/// reads from the text, for the main network; `None` where console does not read the text as a
/// plaintext.
pub uninterp spec fn console_plaintext_bits(text: Seq<char>) -> Option<Seq<bool>>;

/// The parts of the plaintext that console's `Plaintext::from_str` reads from the text, each
/// printed by console: the values of a struct's members, in order, or the elements of an array;
/// none for a literal. `None` where console does not read the text as a plaintext.
pub uninterp spec fn console_plaintext_parts(text: Seq<char>) -> Option<Seq<Seq<char>>>;

/// Reads a plaintext with console's `Plaintext::from_str` and returns its parts, printed: the
/// values of a struct's members or the elements of an array.
#[verifier::external_body]
pub(crate) fn plaintext_parts(text: &str) -> (r: Option<Vec<String>>)
    ensures
        console_plaintext_parts(text@) == match r {
            Some(p) => Some(texts_view(p@)),
            None => None::<Seq<Seq<char>>>,
        },
{
    Some(match Plaintext::<MainnetV0>::from_str(text).ok()? {
        Plaintext::Literal(..) => Vec::new(),
        Plaintext::Struct(members, _) => members.values().map(|v| v.to_string()).collect(),
        Plaintext::Array(elements, _) => elements.iter().map(|v| v.to_string()).collect(),
    })
}

/// Whether console's `to_bits_le` returns on the plaintext that `Plaintext::from_str` reads
/// from the text, looking `depth` levels deep. Console writes the number of bits of each struct
/// member and of each array element in 16 bits, and the number of elements of an array in 32
/// bits, and stops the process where one does not fit; the bits of a part are those that
/// console gives for its printed form.
pub open spec fn plaintext_bits_fit(text: Seq<char>, depth: nat) -> bool
    decreases depth,
{
    if depth == 0 {
        false
    } else {
        match console_plaintext_parts(text) {
            None => true,
            Some(parts) => parts.len() <= u32::MAX && forall|i: int|
                0 <= i < parts.len() ==> plaintext_bits_fit(#[trigger] parts[i], (depth - 1) as nat)
                    && match console_plaintext_bits(parts[i]) {
                    Some(b) => b.len() <= u16::MAX,
                    None => false,
                },
        }
    }
}

/// Reads a plaintext with console's `Plaintext::from_str` and returns its little-endian bits
/// with the metadata of each part (`to_bits_le`). Console stops the process where a part's bits
/// are too many for their 16-bit length, which `requires` leaves out.
#[verifier::external_body]
pub(crate) fn plaintext_bits(text: &str) -> (r: Option<Vec<bool>>)
    requires
        exists|d: nat| plaintext_bits_fit(text@, d),
    ensures
        console_plaintext_bits(text@) == match r {
            Some(b) => Some(b@),
            None => None::<Seq<bool>>,
        },
{
    Some(Plaintext::<MainnetV0>::from_str(text).ok()?.to_bits_le())
}

/// The bits that console's `to_bits_raw_le` gives for the plaintext that `Plaintext::from_str`
/// reads from the text, for the main network; `None` where console does not read the text as a
/// plaintext.
pub uninterp spec fn console_plaintext_bits_raw(text: Seq<char>) -> Option<Seq<bool>>;

/// Reads a plaintext with console's `Plaintext::from_str` and returns the little-endian bits of
/// its bare values (`to_bits_raw_le`).
#[verifier::external_body]
pub(crate) fn plaintext_bits_raw(text: &str) -> (r: Option<Vec<bool>>)
    ensures
        console_plaintext_bits_raw(text@) == match r {
            Some(b) => Some(b@),
            None => None::<Seq<bool>>,
        },
{
    Some(Plaintext::<MainnetV0>::from_str(text).ok()?.to_bits_raw_le())
}

/// Console's `commit_to_group_bhp256` on the bits with the scalar that `Scalar::from_str` reads
/// from the randomizer text, for the main network: the printed group element, or `None` where
/// console refuses.
pub uninterp spec fn console_commit_bhp256(bits: Seq<bool>, randomizer: Seq<char>) -> Option<Seq<char>>;

/// Commits to the bits with the BHP256 commitment of console's main network
/// (`commit_to_group_bhp256`), with the scalar randomizer written as text; returns the group
/// element, printed.
#[verifier::external_body]
pub(crate) fn commit_bhp256(bits: &[bool], randomizer: &str) -> (r: Option<String>)
    ensures
        console_commit_bhp256(bits@, randomizer@) == match r {
            Some(t) => Some(t@),
            None => None::<Seq<char>>,
        },
{
    let r = Scalar::<MainnetV0>::from_str(randomizer).ok()?;
    Some(MainnetV0::commit_to_group_bhp256(bits, &r).ok()?.to_string())
}

/// Console's `commit_to_group_bhp512` on the bits with the scalar that `Scalar::from_str` reads
/// from the randomizer text, for the main network: the printed group element, or `None` where
/// console refuses.
pub uninterp spec fn console_commit_bhp512(bits: Seq<bool>, randomizer: Seq<char>) -> Option<Seq<char>>;

/// Commits to the bits with the BHP512 commitment of console's main network
/// (`commit_to_group_bhp512`), with the scalar randomizer written as text; returns the group
/// element, printed.
#[verifier::external_body]
pub(crate) fn commit_bhp512(bits: &[bool], randomizer: &str) -> (r: Option<String>)
    ensures
        console_commit_bhp512(bits@, randomizer@) == match r {
            Some(t) => Some(t@),
            None => None::<Seq<char>>,
        },
{
    let r = Scalar::<MainnetV0>::from_str(randomizer).ok()?;
    Some(MainnetV0::commit_to_group_bhp512(bits, &r).ok()?.to_string())
}

/// Console's `commit_to_group_bhp768` on the bits with the scalar that `Scalar::from_str` reads
/// from the randomizer text, for the main network: the printed group element, or `None` where
/// console refuses.
pub uninterp spec fn console_commit_bhp768(bits: Seq<bool>, randomizer: Seq<char>) -> Option<Seq<char>>;

/// Commits to the bits with the BHP768 commitment of console's main network
/// (`commit_to_group_bhp768`), with the scalar randomizer written as text; returns the group
/// element, printed.
#[verifier::external_body]
pub(crate) fn commit_bhp768(bits: &[bool], randomizer: &str) -> (r: Option<String>)
    ensures
        console_commit_bhp768(bits@, randomizer@) == match r {
            Some(t) => Some(t@),
            None => None::<Seq<char>>,
        },
{
    let r = Scalar::<MainnetV0>::from_str(randomizer).ok()?;
    Some(MainnetV0::commit_to_group_bhp768(bits, &r).ok()?.to_string())
}

/// Console's `commit_to_group_bhp1024` on the bits with the scalar that `Scalar::from_str` reads
/// from the randomizer text, for the main network: the printed group element, or `None` where
/// console refuses.
pub uninterp spec fn console_commit_bhp1024(bits: Seq<bool>, randomizer: Seq<char>) -> Option<Seq<char>>;

/// Commits to the bits with the BHP1024 commitment of console's main network
/// (`commit_to_group_bhp1024`), with the scalar randomizer written as text; returns the group
/// element, printed.
#[verifier::external_body]
pub(crate) fn commit_bhp1024(bits: &[bool], randomizer: &str) -> (r: Option<String>)
    ensures
        console_commit_bhp1024(bits@, randomizer@) == match r {
            Some(t) => Some(t@),
            None => None::<Seq<char>>,
        },
{
    let r = Scalar::<MainnetV0>::from_str(randomizer).ok()?;
    Some(MainnetV0::commit_to_group_bhp1024(bits, &r).ok()?.to_string())
}

/// Console's `commit_to_group_ped64` on the bits with the scalar that `Scalar::from_str` reads
/// from the randomizer text, for the main network: the printed group element, or `None` where
/// console refuses.
pub uninterp spec fn console_commit_ped64(bits: Seq<bool>, randomizer: Seq<char>) -> Option<Seq<char>>;

/// Commits to the bits with the PED64 commitment of console's main network
/// (`commit_to_group_ped64`), with the scalar randomizer written as text; returns the group
/// element, printed.
#[verifier::external_body]
pub(crate) fn commit_ped64(bits: &[bool], randomizer: &str) -> (r: Option<String>)
    ensures
        console_commit_ped64(bits@, randomizer@) == match r {
            Some(t) => Some(t@),
            None => None::<Seq<char>>,
        },
{
    let r = Scalar::<MainnetV0>::from_str(randomizer).ok()?;
    Some(MainnetV0::commit_to_group_ped64(bits, &r).ok()?.to_string())
}

/// Console's `commit_to_group_ped128` on the bits with the scalar that `Scalar::from_str` reads
/// from the randomizer text, for the main network: the printed group element, or `None` where
/// console refuses.
pub uninterp spec fn console_commit_ped128(bits: Seq<bool>, randomizer: Seq<char>) -> Option<Seq<char>>;

/// Commits to the bits with the PED128 commitment of console's main network
/// (`commit_to_group_ped128`), with the scalar randomizer written as text; returns the group
/// element, printed.
#[verifier::external_body]
pub(crate) fn commit_ped128(bits: &[bool], randomizer: &str) -> (r: Option<String>)
    ensures
        console_commit_ped128(bits@, randomizer@) == match r {
            Some(t) => Some(t@),
            None => None::<Seq<char>>,
        },
{
    let r = Scalar::<MainnetV0>::from_str(randomizer).ok()?;
    Some(MainnetV0::commit_to_group_ped128(bits, &r).ok()?.to_string())
}

/// Console's `Literal::cast_lossy` of the literal that `Literal::from_str` reads from the text,
/// to the literal type with the id, for the main network: the printed result, or `None` where
/// console refuses.
pub uninterp spec fn console_cast_lossy(text: Seq<char>, id: u8) -> Option<Seq<char>>;

/// Casts the literal, written as text, to the literal type with the id, with console's
/// `Literal::cast_lossy`; returns the result, printed.
#[verifier::external_body]
pub(crate) fn cast_lossy(text: &str, id: u8) -> (r: Option<String>)
    ensures
        console_cast_lossy(text@, id) == match r {
            Some(t) => Some(t@),
            None => None::<Seq<char>>,
        },
{
    let l = Literal::<MainnetV0>::from_str(text).ok()?;
    Some(l.cast_lossy(LiteralType::read_le(&[id][..]).ok()?).ok()?.to_string())
}

/// The texts of the strings.
pub open spec fn texts_view(v: Seq<String>) -> Seq<Seq<char>> {
    v.map_values(|t: String| t@)
}

/// Console's `hash_to_group_bhp256` on the bits, for the main network: the printed group element,
/// or `None` where console refuses.
pub uninterp spec fn console_hash_to_group_bhp256(bits: Seq<bool>) -> Option<Seq<char>>;

/// Hashes the bits to a group element with the BHP256 hash of console's main network
/// (`hash_to_group_bhp256`); returns the element, printed.
#[verifier::external_body]
pub(crate) fn hash_to_group_bhp256(bits: &[bool]) -> (r: Option<String>)
    ensures
        console_hash_to_group_bhp256(bits@) == match r {
            Some(t) => Some(t@),
            None => None::<Seq<char>>,
        },
{
    Some(MainnetV0::hash_to_group_bhp256(bits).ok()?.to_string())
}

/// Console's `hash_to_group_bhp512` on the bits, for the main network: the printed group element,
/// or `None` where console refuses.
pub uninterp spec fn console_hash_to_group_bhp512(bits: Seq<bool>) -> Option<Seq<char>>;

/// Hashes the bits to a group element with the BHP512 hash of console's main network
/// (`hash_to_group_bhp512`); returns the element, printed.
#[verifier::external_body]
pub(crate) fn hash_to_group_bhp512(bits: &[bool]) -> (r: Option<String>)
    ensures
        console_hash_to_group_bhp512(bits@) == match r {
            Some(t) => Some(t@),
            None => None::<Seq<char>>,
        },
{
    Some(MainnetV0::hash_to_group_bhp512(bits).ok()?.to_string())
}

/// Console's `hash_to_group_bhp768` on the bits, for the main network: the printed group element,
/// or `None` where console refuses.
pub uninterp spec fn console_hash_to_group_bhp768(bits: Seq<bool>) -> Option<Seq<char>>;

/// Hashes the bits to a group element with the BHP768 hash of console's main network
/// (`hash_to_group_bhp768`); returns the element, printed.
#[verifier::external_body]
pub(crate) fn hash_to_group_bhp768(bits: &[bool]) -> (r: Option<String>)
    ensures
        console_hash_to_group_bhp768(bits@) == match r {
            Some(t) => Some(t@),
            None => None::<Seq<char>>,
        },
{
    Some(MainnetV0::hash_to_group_bhp768(bits).ok()?.to_string())
}

/// Console's `hash_to_group_bhp1024` on the bits, for the main network: the printed group element,
/// or `None` where console refuses.
pub uninterp spec fn console_hash_to_group_bhp1024(bits: Seq<bool>) -> Option<Seq<char>>;

/// Hashes the bits to a group element with the BHP1024 hash of console's main network
/// (`hash_to_group_bhp1024`); returns the element, printed.
#[verifier::external_body]
pub(crate) fn hash_to_group_bhp1024(bits: &[bool]) -> (r: Option<String>)
    ensures
        console_hash_to_group_bhp1024(bits@) == match r {
            Some(t) => Some(t@),
            None => None::<Seq<char>>,
        },
{
    Some(MainnetV0::hash_to_group_bhp1024(bits).ok()?.to_string())
}

/// Console's `hash_to_group_ped64` on the bits, for the main network: the printed group element,
/// or `None` where console refuses.
pub uninterp spec fn console_hash_to_group_ped64(bits: Seq<bool>) -> Option<Seq<char>>;

/// Hashes the bits to a group element with the PED64 hash of console's main network
/// (`hash_to_group_ped64`); returns the element, printed.
#[verifier::external_body]
pub(crate) fn hash_to_group_ped64(bits: &[bool]) -> (r: Option<String>)
    ensures
        console_hash_to_group_ped64(bits@) == match r {
            Some(t) => Some(t@),
            None => None::<Seq<char>>,
        },
{
    Some(MainnetV0::hash_to_group_ped64(bits).ok()?.to_string())
}

/// Console's `hash_to_group_ped128` on the bits, for the main network: the printed group element,
/// or `None` where console refuses.
pub uninterp spec fn console_hash_to_group_ped128(bits: Seq<bool>) -> Option<Seq<char>>;

/// Hashes the bits to a group element with the PED128 hash of console's main network
/// (`hash_to_group_ped128`); returns the element, printed.
#[verifier::external_body]
pub(crate) fn hash_to_group_ped128(bits: &[bool]) -> (r: Option<String>)
    ensures
        console_hash_to_group_ped128(bits@) == match r {
            Some(t) => Some(t@),
            None => None::<Seq<char>>,
        },
{
    Some(MainnetV0::hash_to_group_ped128(bits).ok()?.to_string())
}

/// Console's `hash_to_group_psd2` on the field elements that `Field::from_str` reads from the
/// texts, for the main network: the printed group element, or `None` where console refuses.
pub uninterp spec fn console_hash_to_group_psd2(fields: Seq<Seq<char>>) -> Option<Seq<char>>;

/// Hashes the field elements, written as text, to a group element with the Poseidon (rate 2) hash of
/// console's main network (`hash_to_group_psd2`); returns the element, printed.
#[verifier::external_body]
pub(crate) fn hash_to_group_psd2(fields: &Vec<String>) -> (r: Option<String>)
    ensures
        console_hash_to_group_psd2(texts_view(fields@)) == match r {
            Some(t) => Some(t@),
            None => None::<Seq<char>>,
        },
{
    let f = fields.iter().map(|t| Field::<MainnetV0>::from_str(t)).collect::<Result<Vec<_>, _>>().ok()?;
    Some(MainnetV0::hash_to_group_psd2(&f).ok()?.to_string())
}

/// Console's `hash_psd2` on the field elements that `Field::from_str` reads from the texts, for
/// the main network: the printed field element, or `None` where console refuses.
pub uninterp spec fn console_hash_psd2(fields: Seq<Seq<char>>) -> Option<Seq<char>>;

/// Hashes the field elements, written as text, to a field element with the Poseidon (rate 2) hash of
/// console's main network (`hash_psd2`); returns the element, printed.
#[verifier::external_body]
pub(crate) fn hash_psd2(fields: &Vec<String>) -> (r: Option<String>)
    ensures
        console_hash_psd2(texts_view(fields@)) == match r {
            Some(t) => Some(t@),
            None => None::<Seq<char>>,
        },
{
    let f = fields.iter().map(|t| Field::<MainnetV0>::from_str(t)).collect::<Result<Vec<_>, _>>().ok()?;
    Some(MainnetV0::hash_psd2(&f).ok()?.to_string())
}

/// Console's `hash_to_group_psd4` on the field elements that `Field::from_str` reads from the
/// texts, for the main network: the printed group element, or `None` where console refuses.
pub uninterp spec fn console_hash_to_group_psd4(fields: Seq<Seq<char>>) -> Option<Seq<char>>;

/// Hashes the field elements, written as text, to a group element with the Poseidon (rate 4) hash of
/// console's main network (`hash_to_group_psd4`); returns the element, printed.
#[verifier::external_body]
pub(crate) fn hash_to_group_psd4(fields: &Vec<String>) -> (r: Option<String>)
    ensures
        console_hash_to_group_psd4(texts_view(fields@)) == match r {
            Some(t) => Some(t@),
            None => None::<Seq<char>>,
        },
{
    let f = fields.iter().map(|t| Field::<MainnetV0>::from_str(t)).collect::<Result<Vec<_>, _>>().ok()?;
    Some(MainnetV0::hash_to_group_psd4(&f).ok()?.to_string())
}

/// Console's `hash_psd4` on the field elements that `Field::from_str` reads from the texts, for
/// the main network: the printed field element, or `None` where console refuses.
pub uninterp spec fn console_hash_psd4(fields: Seq<Seq<char>>) -> Option<Seq<char>>;

/// Hashes the field elements, written as text, to a field element with the Poseidon (rate 4) hash of
/// console's main network (`hash_psd4`); returns the element, printed.
#[verifier::external_body]
pub(crate) fn hash_psd4(fields: &Vec<String>) -> (r: Option<String>)
    ensures
        console_hash_psd4(texts_view(fields@)) == match r {
            Some(t) => Some(t@),
            None => None::<Seq<char>>,
        },
{
    let f = fields.iter().map(|t| Field::<MainnetV0>::from_str(t)).collect::<Result<Vec<_>, _>>().ok()?;
    Some(MainnetV0::hash_psd4(&f).ok()?.to_string())
}

/// Console's `hash_to_group_psd8` on the field elements that `Field::from_str` reads from the
/// texts, for the main network: the printed group element, or `None` where console refuses.
pub uninterp spec fn console_hash_to_group_psd8(fields: Seq<Seq<char>>) -> Option<Seq<char>>;

/// Hashes the field elements, written as text, to a group element with the Poseidon (rate 8) hash of
/// console's main network (`hash_to_group_psd8`); returns the element, printed.
#[verifier::external_body]
pub(crate) fn hash_to_group_psd8(fields: &Vec<String>) -> (r: Option<String>)
    ensures
        console_hash_to_group_psd8(texts_view(fields@)) == match r {
            Some(t) => Some(t@),
            None => None::<Seq<char>>,
        },
{
    let f = fields.iter().map(|t| Field::<MainnetV0>::from_str(t)).collect::<Result<Vec<_>, _>>().ok()?;
    Some(MainnetV0::hash_to_group_psd8(&f).ok()?.to_string())
}

/// Console's `hash_psd8` on the field elements that `Field::from_str` reads from the texts, for
/// the main network: the printed field element, or `None` where console refuses.
pub uninterp spec fn console_hash_psd8(fields: Seq<Seq<char>>) -> Option<Seq<char>>;

/// Hashes the field elements, written as text, to a field element with the Poseidon (rate 8) hash of
/// console's main network (`hash_psd8`); returns the element, printed.
#[verifier::external_body]
pub(crate) fn hash_psd8(fields: &Vec<String>) -> (r: Option<String>)
    ensures
        console_hash_psd8(texts_view(fields@)) == match r {
            Some(t) => Some(t@),
            None => None::<Seq<char>>,
        },
{
    let f = fields.iter().map(|t| Field::<MainnetV0>::from_str(t)).collect::<Result<Vec<_>, _>>().ok()?;
    Some(MainnetV0::hash_psd8(&f).ok()?.to_string())
}

/// Console's `hash_keccak256` on the bits, for the main network: the bits of the digest, or `None`
/// where console refuses.
pub uninterp spec fn console_hash_keccak256(bits: Seq<bool>) -> Option<Seq<bool>>;

/// Hashes the bits with the Keccak-256 hash of console's main network (`hash_keccak256`) and returns the
/// bits of the digest.
#[verifier::external_body]
pub(crate) fn hash_keccak256(bits: &[bool]) -> (r: Option<Vec<bool>>)
    ensures
        console_hash_keccak256(bits@) == match r {
            Some(b) => Some(b@),
            None => None::<Seq<bool>>,
        },
{
    MainnetV0::hash_keccak256(bits).ok()
}

/// Console's `hash_keccak384` on the bits, for the main network: the bits of the digest, or `None`
/// where console refuses.
pub uninterp spec fn console_hash_keccak384(bits: Seq<bool>) -> Option<Seq<bool>>;

/// Hashes the bits with the Keccak-384 hash of console's main network (`hash_keccak384`) and returns the
/// bits of the digest.
#[verifier::external_body]
pub(crate) fn hash_keccak384(bits: &[bool]) -> (r: Option<Vec<bool>>)
    ensures
        console_hash_keccak384(bits@) == match r {
            Some(b) => Some(b@),
            None => None::<Seq<bool>>,
        },
{
    MainnetV0::hash_keccak384(bits).ok()
}

/// Console's `hash_keccak512` on the bits, for the main network: the bits of the digest, or `None`
/// where console refuses.
pub uninterp spec fn console_hash_keccak512(bits: Seq<bool>) -> Option<Seq<bool>>;

/// Hashes the bits with the Keccak-512 hash of console's main network (`hash_keccak512`) and returns the
/// bits of the digest.
#[verifier::external_body]
pub(crate) fn hash_keccak512(bits: &[bool]) -> (r: Option<Vec<bool>>)
    ensures
        console_hash_keccak512(bits@) == match r {
            Some(b) => Some(b@),
            None => None::<Seq<bool>>,
        },
{
    MainnetV0::hash_keccak512(bits).ok()
}

/// Console's `hash_sha3_256` on the bits, for the main network: the bits of the digest, or `None`
/// where console refuses.
pub uninterp spec fn console_hash_sha3_256(bits: Seq<bool>) -> Option<Seq<bool>>;

/// Hashes the bits with the SHA3-256 hash of console's main network (`hash_sha3_256`) and returns the
/// bits of the digest.
#[verifier::external_body]
pub(crate) fn hash_sha3_256(bits: &[bool]) -> (r: Option<Vec<bool>>)
    ensures
        console_hash_sha3_256(bits@) == match r {
            Some(b) => Some(b@),
            None => None::<Seq<bool>>,
        },
{
    MainnetV0::hash_sha3_256(bits).ok()
}

/// Console's `hash_sha3_384` on the bits, for the main network: the bits of the digest, or `None`
/// where console refuses.
pub uninterp spec fn console_hash_sha3_384(bits: Seq<bool>) -> Option<Seq<bool>>;

/// Hashes the bits with the SHA3-384 hash of console's main network (`hash_sha3_384`) and returns the
/// bits of the digest.
#[verifier::external_body]
pub(crate) fn hash_sha3_384(bits: &[bool]) -> (r: Option<Vec<bool>>)
    ensures
        console_hash_sha3_384(bits@) == match r {
            Some(b) => Some(b@),
            None => None::<Seq<bool>>,
        },
{
    MainnetV0::hash_sha3_384(bits).ok()
}

/// Console's `hash_sha3_512` on the bits, for the main network: the bits of the digest, or `None`
/// where console refuses.
pub uninterp spec fn console_hash_sha3_512(bits: Seq<bool>) -> Option<Seq<bool>>;

/// Hashes the bits with the SHA3-512 hash of console's main network (`hash_sha3_512`) and returns the
/// bits of the digest.
#[verifier::external_body]
pub(crate) fn hash_sha3_512(bits: &[bool]) -> (r: Option<Vec<bool>>)
    ensures
        console_hash_sha3_512(bits@) == match r {
            Some(b) => Some(b@),
            None => None::<Seq<bool>>,
        },
{
    MainnetV0::hash_sha3_512(bits).ok()
}

/// The field elements that console's `to_fields` gives for the plaintext that
/// `Plaintext::from_str` reads from the text, for the main network, printed; `None` where
/// console refuses.
pub uninterp spec fn console_plaintext_fields(text: Seq<char>) -> Option<Seq<Seq<char>>>;

/// Reads a plaintext with console's `Plaintext::from_str` and returns its field elements
/// (`to_fields`), printed. `to_fields` packs the bits of `to_bits_le`, so `requires` leaves out
/// what that function stops on.
#[verifier::external_body]
pub(crate) fn plaintext_fields(text: &str) -> (r: Option<Vec<String>>)
    requires
        exists|d: nat| plaintext_bits_fit(text@, d),
    ensures
        console_plaintext_fields(text@) == match r {
            Some(f) => Some(texts_view(f@)),
            None => None::<Seq<Seq<char>>>,
        },
{
    let f = Plaintext::<MainnetV0>::from_str(text).ok()?.to_fields().ok()?;
    Some(f.iter().map(|x| x.to_string()).collect())
}

/// The field elements that console's `to_fields_raw` gives for the plaintext that
/// `Plaintext::from_str` reads from the text, for the main network, printed; `None` where
/// console refuses.
pub uninterp spec fn console_plaintext_fields_raw(text: Seq<char>) -> Option<Seq<Seq<char>>>;

/// Reads a plaintext with console's `Plaintext::from_str` and returns the field elements of its
/// bare values (`to_fields_raw`), printed.
#[verifier::external_body]
pub(crate) fn plaintext_fields_raw(text: &str) -> (r: Option<Vec<String>>)
    ensures
        console_plaintext_fields_raw(text@) == match r {
            Some(f) => Some(texts_view(f@)),
            None => None::<Seq<Seq<char>>>,
        },
{
    let f = Plaintext::<MainnetV0>::from_str(text).ok()?.to_fields_raw().ok()?;
    Some(f.iter().map(|x| x.to_string()).collect())
}

/// Whether console's `ECDSASignature::from_bytes_le` reads a signature from the bytes.
pub uninterp spec fn console_ecdsa_signature_ok(bytes: Seq<u8>) -> bool;

/// Returns `true` if console's `ECDSASignature::from_bytes_le` reads a signature from the bytes.
#[verifier::external_body]
pub(crate) fn ecdsa_signature_ok(bytes: &[u8]) -> (r: bool)
    ensures
        r == console_ecdsa_signature_ok(bytes@),
{
    ECDSASignature::from_bytes_le(bytes).is_ok()
}

/// Whether console's `ECDSASignature::verifying_key_from_bytes` reads a public key from the
/// bytes.
pub uninterp spec fn console_ecdsa_key_ok(bytes: Seq<u8>) -> bool;

/// Returns `true` if console's `ECDSASignature::verifying_key_from_bytes` reads a public key from
/// the bytes.
#[verifier::external_body]
pub(crate) fn ecdsa_key_ok(bytes: &[u8]) -> (r: bool)
    ensures
        r == console_ecdsa_key_ok(bytes@),
{
    ECDSASignature::verifying_key_from_bytes(bytes).is_ok()
}

/// Whether console's `ECDSASignature::verify_with_digest` accepts the signature read from the
/// first bytes, for the public key read from the second and the digest; `None` where the
/// signature or the key cannot be read.
pub uninterp spec fn console_ecdsa_verify_digest(signature: Seq<u8>, key: Seq<u8>, digest: Seq<bool>) -> Option<bool>;

/// Verifies the signature against the public key for the digest with console's
/// `ECDSASignature::verify_with_digest`, after reading the signature with `from_bytes_le` and the
/// key with `verifying_key_from_bytes`.
#[verifier::external_body]
pub(crate) fn ecdsa_verify_digest(signature: &[u8], key: &[u8], digest: &[bool]) -> (r: Option<bool>)
    ensures
        r == console_ecdsa_verify_digest(signature@, key@, digest@),
{
    let s = ECDSASignature::from_bytes_le(signature).ok()?;
    let k = ECDSASignature::verifying_key_from_bytes(key).ok()?;
    Some(s.verify_with_digest(&k, digest).is_ok())
}

/// Whether console's `ECDSASignature::verify_ethereum_with_digest` accepts the signature read
/// from the bytes, for the 20-byte Ethereum address and the digest; `None` where the signature
/// cannot be read or the address is not 20 bytes.
pub uninterp spec fn console_ecdsa_verify_ethereum_digest(
    signature: Seq<u8>,
    address: Seq<u8>,
    digest: Seq<bool>,
) -> Option<bool>;

/// Verifies the signature against the Ethereum address for the digest with console's
/// `ECDSASignature::verify_ethereum_with_digest`, after reading the signature with
/// `from_bytes_le`.
#[verifier::external_body]
pub(crate) fn ecdsa_verify_ethereum_digest(signature: &[u8], address: &[u8], digest: &[bool]) -> (r: Option<bool>)
    ensures
        r == console_ecdsa_verify_ethereum_digest(signature@, address@, digest@),
{
    let s = ECDSASignature::from_bytes_le(signature).ok()?;
    let a: [u8; 20] = address.try_into().ok()?;
    Some(s.verify_ethereum_with_digest(&a, digest).is_ok())
}

/// The byte of the `u8` literal that console's `Literal::from_str` reads from the text; `None`
/// where the text is not a `u8` literal.
pub uninterp spec fn console_literal_u8(text: Seq<char>) -> Option<u8>;

/// Reads the text with console's `Literal::from_str` and returns its byte if it is a `u8`
/// literal.
#[verifier::external_body]
pub(crate) fn literal_u8(text: &str) -> (r: Option<u8>)
    ensures
        r == console_literal_u8(text@),
{
    match Literal::<MainnetV0>::from_str(text).ok()? {
        Literal::U8(v) => Some(*v),
        _ => None,
    }
}

/// Whether console's `Literal::from_str` reads a field literal from the text.
pub uninterp spec fn console_literal_is_field(text: Seq<char>) -> bool;

/// Returns `true` if console's `Literal::from_str` reads a field literal from the text.
#[verifier::external_body]
pub(crate) fn literal_is_field(text: &str) -> (r: bool)
    ensures
        r == console_literal_is_field(text@),
{
    matches!(Literal::<MainnetV0>::from_str(text), Ok(Literal::Field(_)))
}

/// Whether the field element that console's `Field::from_str` reads from the text is zero;
/// `None` where the text is not a field element.
pub uninterp spec fn console_field_is_zero(text: Seq<char>) -> Option<bool>;

/// Returns whether the field element, written as text, is zero.
#[verifier::external_body]
pub(crate) fn field_is_zero(text: &str) -> (r: Option<bool>)
    ensures
        r == console_field_is_zero(text@),
{
    Some(Field::<MainnetV0>::from_str(text).ok()?.is_zero())
}

/// The number of public inputs (`circuit_info.num_public_inputs`) of the verifying key that
/// `VerifyingKey::from_bytes_le` reads from the bytes, for the main network; `None` where no
/// key can be read.
pub uninterp spec fn console_snark_key_inputs(key: Seq<u8>) -> Option<usize>;

/// Reads a Varuna verifying key with `VerifyingKey::from_bytes_le` and returns its number of
/// public inputs.
#[verifier::external_body]
pub(crate) fn snark_key_inputs(key: &[u8]) -> (r: Option<usize>)
    ensures
        r == console_snark_key_inputs(key@),
{
    Some(VerifyingKey::<MainnetV0>::from_bytes_le(key).ok()?.circuit_info.num_public_inputs)
}

/// What `VerifyingKey::verify` answers, for the main network, under the function name, for the
/// key read from the bytes, the Varuna version read from the byte, the field elements written
/// as text and the proof read from the bytes; `None` where one of them cannot be read.
pub uninterp spec fn console_varuna_verify(
    name: Seq<char>,
    key: Seq<u8>,
    version: u8,
    inputs: Seq<Seq<char>>,
    proof: Seq<u8>,
) -> Option<bool>;

/// Verifies the Varuna proof for the inputs with `VerifyingKey::verify`, after reading the key
/// and the proof with `from_bytes_le`, the version with `VarunaVersion::from_bytes_le` and the
/// inputs with `Field::from_str`.
#[verifier::external_body]
pub(crate) fn varuna_verify(name: &str, key: &[u8], version: u8, inputs: &Vec<String>, proof: &[u8]) -> (r: Option<
    bool,
>)
    ensures
        r == console_varuna_verify(name@, key@, version, texts_view(inputs@), proof@),
{
    let k = VerifyingKey::<MainnetV0>::from_bytes_le(key).ok()?;
    let f = inputs.iter().map(|t| Field::<MainnetV0>::from_str(t).map(|x| *x)).collect::<Result<Vec<_>, _>>().ok()?;
    let p = Proof::<MainnetV0>::from_bytes_le(proof).ok()?;
    Some(k.verify(name, FromBytes::from_bytes_le(&[version]).ok()?, &f, &p))
}

/// The keys and the rows of inputs of a batch, as text.
pub open spec fn batch_view(v: Seq<(Vec<u8>, Vec<Vec<String>>)>) -> Seq<(Seq<u8>, Seq<Seq<Seq<char>>>)> {
    v.map_values(|x: (Vec<u8>, Vec<Vec<String>>)| (x.0@, x.1@.map_values(|row: Vec<String>| texts_view(row@))))
}

/// Whether `VerifyingKey::verify_batch` accepts the proof, for the main network, under the
/// name, with the Varuna version read from the byte, for each key read from its bytes with its
/// rows of field elements written as text; `None` where one of them cannot be read.
pub uninterp spec fn console_varuna_verify_batch(
    name: Seq<char>,
    version: u8,
    batch: Seq<(Seq<u8>, Seq<Seq<Seq<char>>>)>,
    proof: Seq<u8>,
) -> Option<bool>;

/// Verifies the Varuna batch proof with `VerifyingKey::verify_batch`, after reading each key
/// and the proof with `from_bytes_le`, the version with `VarunaVersion::from_bytes_le` and the
/// inputs with `Field::from_str`.
#[verifier::external_body]
pub(crate) fn varuna_verify_batch(
    name: &str,
    version: u8,
    batch: &Vec<(Vec<u8>, Vec<Vec<String>>)>,
    proof: &[u8],
) -> (r: Option<bool>)
    ensures
        r == console_varuna_verify_batch(name@, version, batch_view(batch@), proof@),
{
    let p = Proof::<MainnetV0>::from_bytes_le(proof).ok()?;
    let field = |t: &String| Field::<MainnetV0>::from_str(t).map(|x| *x);
    let mut list = Vec::new();
    for (k, rows) in batch {
        let rows = rows.iter().map(|r| r.iter().map(field).collect::<Result<Vec<_>, _>>()).collect::<Result<Vec<_>, _>>();
        list.push((VerifyingKey::<MainnetV0>::from_bytes_le(k).ok()?, rows.ok()?));
    }
    Some(VerifyingKey::verify_batch(name, FromBytes::from_bytes_le(&[version]).ok()?, list, &p).is_ok())
}

} // verus!
