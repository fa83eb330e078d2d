//! The `cast` and `cast.lossy` instructions: build a value of the cast type from the operands,
//! as in `cast r0 r1 into r2 as token` or `cast.lossy r0 into r1 as u8`.
use vstd::prelude::*;

use crate::call_dynamic::operands_view;
use crate::console::{console_identifier, console_locator, data_limits, mainnet_data_limits};
use crate::instruction::{
    into_as_text, into_register_as, spec_into_register_as, spec_ws_operands_many, write_into_as, ws_operands_many,
};
use crate::operand::{program_id_text, tail, Identifier, Operand, OperandView, ProgramID, ProgramIDView, Register, RegisterView};
use crate::plaintext::{exceeds_array_size, holds_identifier, parse_plaintext_type, plaintext_type_text, spec_parse_plaintext_type};
use crate::syntax::{after, tail_of};
use crate::text::{chars_of, has_prefix, push_all, starts_with, string_of};
use crate::plaintext::same_plaintext_type;
use crate::types::{
    contains_external_struct, copy_plaintext_type, plaintext_contains_external_struct, register_types_view, LiteralType,
    PlaintextType, PlaintextTypeView, RegisterType, RegisterTypeView, TypeError,
};

verus! {

/// The type that a `cast` produces.
#[derive(Debug, PartialEq, Eq)]
pub enum CastType {
    /// The x-coordinate of a group element.
    GroupXCoordinate,
    /// The y-coordinate of a group element.
    GroupYCoordinate,
    /// A plaintext value of the type.
    Plaintext(PlaintextType),
    /// A record of this program.
    Record(Identifier),
    /// A record of another program.
    ExternalRecord(ProgramID, Identifier),
    /// A dynamic record.
    DynamicRecord,
}

/// The mathematical value of a cast type.
pub ghost enum CastTypeView {
    GroupXCoordinate,
    GroupYCoordinate,
    Plaintext(PlaintextTypeView),
    Record(Seq<char>),
    ExternalRecord(ProgramIDView, Seq<char>),
    DynamicRecord,
}

impl View for CastType {
    type V = CastTypeView;

    open spec fn view(&self) -> CastTypeView {
        match self {
            CastType::GroupXCoordinate => CastTypeView::GroupXCoordinate,
            CastType::GroupYCoordinate => CastTypeView::GroupYCoordinate,
            CastType::Plaintext(p) => CastTypeView::Plaintext(p@),
            CastType::Record(n) => CastTypeView::Record(n@),
            CastType::ExternalRecord(p, n) => CastTypeView::ExternalRecord(p@, n@),
            CastType::DynamicRecord => CastTypeView::DynamicRecord,
        }
    }
}

/// A locator followed by `.record` at the start of the text: the length of the rest and the
/// record of another program.
pub open spec fn spec_external_record(t: Seq<char>) -> Option<(nat, CastTypeView)> {
    match console_locator(t) {
        Some((k, name, network, resource)) => if starts_with(tail(t, k), ".record"@) {
            Some(
                (
                    after(tail(t, k), ".record"@).len(),
                    CastTypeView::ExternalRecord(ProgramIDView { name, network }, resource),
                ),
            )
        } else {
            None
        },
        None => None,
    }
}

/// An identifier followed by `.record` at the start of the text: the length of the rest and
/// the record of this program.
pub open spec fn spec_local_record(t: Seq<char>) -> Option<(nat, CastTypeView)> {
    match console_identifier(t) {
        Some((k, n)) => if starts_with(tail(t, k), ".record"@) {
            Some((after(tail(t, k), ".record"@).len(), CastTypeView::Record(n)))
        } else {
            None
        },
        None => None,
    }
}

/// What the cast type parser reads from the start of the text, trying in turn `group.x`,
/// `group.y`, `dynamic.record`, a locator followed by `.record`, an identifier followed by
/// `.record`, and a plaintext type. The length of the rest and the cast type.
pub open spec fn spec_parse_cast_type(t: Seq<char>) -> Option<(nat, CastTypeView)> {
    if starts_with(t, "group.x"@) {
        Some((after(t, "group.x"@).len(), CastTypeView::GroupXCoordinate))
    } else if starts_with(t, "group.y"@) {
        Some((after(t, "group.y"@).len(), CastTypeView::GroupYCoordinate))
    } else if starts_with(t, "dynamic.record"@) {
        Some((after(t, "dynamic.record"@).len(), CastTypeView::DynamicRecord))
    } else if spec_external_record(t) is Some {
        spec_external_record(t)
    } else if spec_local_record(t) is Some {
        spec_local_record(t)
    } else {
        match spec_parse_plaintext_type(t) {
            Some((k, p)) => Some((k, CastTypeView::Plaintext(p))),
            None => None,
        }
    }
}

impl CastType {
    /// Parses a cast type from the start of the characters.
    pub fn parse_chars(t: &[char]) -> (r: Option<(usize, CastType)>)
        ensures
            spec_parse_cast_type(t@) == match r {
                Some((k, c)) => Some((k as nat, c@)),
                None => None::<(nat, CastTypeView)>,
            },
            r matches Some((k, _)) ==> k <= t@.len(),
    {
        let w = chars_of("group.x");
        if has_prefix(t, &w) {
            return Some((t.len() - w.len(), CastType::GroupXCoordinate));
        }
        let w = chars_of("group.y");
        if has_prefix(t, &w) {
            return Some((t.len() - w.len(), CastType::GroupYCoordinate));
        }
        let w = chars_of("dynamic.record");
        if has_prefix(t, &w) {
            return Some((t.len() - w.len(), CastType::DynamicRecord));
        }
        let w = chars_of(".record");
        if let Some((k, name, network, resource)) = crate::console::locator(t) {
            let rest = tail_of(t, k);
            if has_prefix(rest, &w) {
                return Some((rest.len() - w.len(), CastType::ExternalRecord(ProgramID { name, network }, Identifier { name: resource })));
            }
        }
        if let Some((k, n)) = crate::console::identifier(t) {
            let rest = tail_of(t, k);
            if has_prefix(rest, &w) {
                return Some((rest.len() - w.len(), CastType::Record(Identifier { name: n })));
            }
        }
        match parse_plaintext_type(t) {
            Some((k, p)) => Some((k, CastType::Plaintext(p))),
            None => None,
        }
    }

    /// Parses a cast type from the whole string.
    pub fn from_str(string: &str) -> (r: Option<CastType>)
        ensures
            match spec_parse_cast_type(string@) {
                Some((k, c)) => if k == 0 {
                    r matches Some(x) && x@ == c
                } else {
                    r is None
                },
                None => r is None,
            },
    {
        let s = chars_of(string);
        match CastType::parse_chars(&s) {
            Some((k, c)) => if k == 0 {
                Some(c)
            } else {
                None
            },
            None => None,
        }
    }
}

/// The printed cast type.
pub open spec fn cast_type_text(c: CastTypeView) -> Seq<char> {
    match c {
        CastTypeView::GroupXCoordinate => "group.x"@,
        CastTypeView::GroupYCoordinate => "group.y"@,
        CastTypeView::Plaintext(p) => plaintext_type_text(p),
        CastTypeView::Record(n) => n + ".record"@,
        CastTypeView::ExternalRecord(p, n) => program_id_text(p) + "/"@ + n + ".record"@,
        CastTypeView::DynamicRecord => "dynamic.record"@,
    }
}

impl CastType {
    /// Appends the printed cast type to the characters.
    pub fn write_text(&self, out: &mut Vec<char>)
        ensures
            final(out)@ == old(out)@ + cast_type_text(self@),
    {
        let ghost start = out@;
        match self {
            CastType::GroupXCoordinate => push_all(out, &chars_of("group.x")),
            CastType::GroupYCoordinate => push_all(out, &chars_of("group.y")),
            CastType::Plaintext(p) => p.write_text(out),
            CastType::Record(n) => {
                push_all(out, &chars_of(n.name.as_str()));
                push_all(out, &chars_of(".record"));
            },
            CastType::ExternalRecord(p, n) => {
                push_all(out, &chars_of(p.name.as_str()));
                push_all(out, &chars_of("."));
                push_all(out, &chars_of(p.network.as_str()));
                push_all(out, &chars_of("/"));
                push_all(out, &chars_of(n.name.as_str()));
                push_all(out, &chars_of(".record"));
            },
            CastType::DynamicRecord => push_all(out, &chars_of("dynamic.record")),
        }
        assert(out@ =~= start + cast_type_text(self@));
    }

    /// Returns the printed cast type.
    pub fn to_string(&self) -> (r: String)
        ensures
            r@ == cast_type_text(self@),
    {
        let mut out: Vec<char> = Vec::new();
        self.write_text(&mut out);
        assert(out@ =~= cast_type_text(self@));
        string_of(&out)
    }

    /// Returns whether the cast type holds identifiers: only a plaintext type may (`None` for
    /// an array deeper than the network's most data depth).
    pub fn contains_identifier_type(&self) -> (r: Option<bool>)
        ensures
            r == match self@ {
                CastTypeView::Plaintext(p) => holds_identifier(p),
                _ => Some(false),
            },
    {
        match self {
            CastType::Plaintext(p) => p.contains_identifier_type(),
            _ => Some(false),
        }
    }

    /// Returns `true` if the cast type is a plaintext type that is an array longer than
    /// `max_array_size` or holds one.
    pub fn exceeds_max_array_size(&self, max_array_size: u32) -> (r: bool)
        ensures
            r == (self@ matches CastTypeView::Plaintext(p) && exceeds_array_size(p, max_array_size)),
    {
        match self {
            CastType::Plaintext(p) => p.exceeds_max_array_size(max_array_size),
            _ => false,
        }
    }

    /// Returns `true` if the cast type is a plaintext type that holds a struct of another
    /// program.
    pub fn contains_external_struct(&self) -> (r: bool)
        ensures
            r == (self@ matches CastTypeView::Plaintext(p) && contains_external_struct(p)),
    {
        match self {
            CastType::Plaintext(p) => plaintext_contains_external_struct(p),
            _ => false,
        }
    }
}

/// The most operands that a cast into the type takes: one for a group coordinate, a literal or
/// a dynamic record, and the network's most struct entries, array elements or record entries
/// otherwise.
pub open spec fn max_cast_operands(c: CastTypeView) -> nat {
    match c {
        CastTypeView::Plaintext(PlaintextTypeView::Struct(_)) => mainnet_data_limits().max_struct_entries as nat,
        CastTypeView::Plaintext(PlaintextTypeView::ExternalStruct(..)) => mainnet_data_limits().max_struct_entries as nat,
        CastTypeView::Plaintext(PlaintextTypeView::Array(..)) => mainnet_data_limits().max_array_elements as nat,
        CastTypeView::Record(_) => mainnet_data_limits().max_record_entries as nat,
        CastTypeView::ExternalRecord(..) => mainnet_data_limits().max_record_entries as nat,
        _ => 1,
    }
}

fn max_operands(c: &CastType) -> (r: usize)
    ensures
        r == max_cast_operands(c@),
{
    let limits = data_limits();
    match c {
        CastType::Plaintext(PlaintextType::Struct(_)) => limits.max_struct_entries,
        CastType::Plaintext(PlaintextType::ExternalStruct(..)) => limits.max_struct_entries,
        CastType::Plaintext(PlaintextType::Array(..)) => limits.max_array_elements,
        CastType::Record(_) => limits.max_record_entries,
        CastType::ExternalRecord(..) => limits.max_record_entries,
        _ => 1,
    }
}

/// A cast into a dynamic record takes a single operand that is a plain register, and its
/// destination is a plain register.
pub open spec fn dynamic_record_cast_ok(c: CastTypeView, operands: Seq<OperandView>, destination: RegisterView) -> bool {
    c == CastTypeView::DynamicRecord ==> {
        &&& operands.len() == 1
        &&& operands[0] matches OperandView::Register(r) && r.is_locator
        &&& destination.is_locator
    }
}

/// The parts make a cast: there is at least one operand and no more than the cast type takes,
/// and a cast into a dynamic record reads and writes plain registers.
pub open spec fn cast_parts_ok(c: CastTypeView, operands: Seq<OperandView>, destination: RegisterView) -> bool {
    &&& dynamic_record_cast_ok(c, operands, destination)
    &&& operands.len() >= 1
    &&& operands.len() <= max_cast_operands(c)
}

fn parts_ok(c: &CastType, operands: &Vec<Operand>, destination: &Register) -> (r: bool)
    ensures
        r == cast_parts_ok(c@, operands_view(operands@), destination@),
{
    if let CastType::DynamicRecord = c {
        if operands.len() != 1 {
            return false;
        }
        match &operands[0] {
            Operand::Register(r) => if !r.is_locator {
                return false;
            },
            _ => return false,
        }
        if !destination.is_locator {
            return false;
        }
    }
    operands.len() >= 1 && operands.len() <= max_operands(c)
}

/// The opcode of the cast variant: `cast` or `cast.lossy`.
pub open spec fn spec_cast_opcode(variant: u8) -> Seq<char> {
    if variant == 0 {
        "cast"@
    } else {
        "cast.lossy"@
    }
}

/// Returns the opcode of the cast variant.
pub fn cast_opcode(variant: u8) -> (r: &'static str)
    requires
        variant < 2,
    ensures
        r@ == spec_cast_opcode(variant),
{
    if variant == 0 {
        "cast"
    } else {
        "cast.lossy"
    }
}

/// The mathematical value of a cast.
pub ghost struct CastView {
    pub variant: u8,
    pub operands: Seq<OperandView>,
    pub destination: RegisterView,
    pub cast_type: CastTypeView,
}

/// A `cast` (variant 0) or `cast.lossy` (variant 1) instruction.
#[derive(Debug, PartialEq, Eq)]
pub struct CastOperation {
    variant: u8,
    operands: Vec<Operand>,
    destination: Register,
    cast_type: CastType,
}

impl View for CastOperation {
    type V = CastView;

    closed spec fn view(&self) -> CastView {
        CastView {
            variant: self.variant,
            operands: operands_view(self.operands@),
            destination: self.destination@,
            cast_type: self.cast_type@,
        }
    }
}

impl CastOperation {
    /// The parts make a cast of a known variant.
    pub open spec fn wf(&self) -> bool {
        self@.variant < 2 && cast_parts_ok(self@.cast_type, self@.operands, self@.destination)
    }

    /// Makes a cast of the variant, if the parts make one: at least one operand and no more
    /// than the cast type takes, and plain registers for a cast into a dynamic record.
    pub fn new(variant: u8, operands: Vec<Operand>, destination: Register, cast_type: CastType) -> (r: Option<
        CastOperation,
    >)
        requires
            variant < 2,
        ensures
            cast_parts_ok(cast_type@, operands_view(operands@), destination@) ==> (r matches Some(c) && c.wf() && c@
                == (CastView { variant, operands: operands_view(operands@), destination: destination@, cast_type: cast_type@ })),
            !cast_parts_ok(cast_type@, operands_view(operands@), destination@) ==> r is None,
    {
        if parts_ok(&cast_type, &operands, &destination) {
            Some(CastOperation { variant, operands, destination, cast_type })
        } else {
            None
        }
    }

    /// The operands.
    pub fn operands(&self) -> (r: &Vec<Operand>)
        ensures
            operands_view(r@) == self@.operands,
    {
        &self.operands
    }

    /// The opcode.
    pub fn opcode(&self) -> (r: &'static str)
        requires
            self.wf(),
        ensures
            r@ == spec_cast_opcode(self@.variant),
    {
        cast_opcode(self.variant)
    }

    /// The destination registers: the one destination.
    pub fn destinations(&self) -> (r: Vec<Register>)
        ensures
            r@.len() == 1,
            r@[0]@ == self@.destination,
    {
        let mut v: Vec<Register> = Vec::new();
        v.push(self.destination.copy());
        v
    }

    /// The destination register.
    pub fn destination(&self) -> (r: &Register)
        ensures
            r@ == self@.destination,
    {
        &self.destination
    }

    /// The cast type.
    pub fn cast_type(&self) -> (r: &CastType)
        ensures
            r@ == self@.cast_type,
    {
        &self.cast_type
    }

    /// Returns `true` if the cast type holds a struct of another program.
    pub fn contains_external_struct(&self) -> (r: bool)
        ensures
            r == (self@.cast_type matches CastTypeView::Plaintext(p) && contains_external_struct(p)),
    {
        self.cast_type.contains_external_struct()
    }
}

/// What the parser of the cast variant reads from the start of the text: the opcode, one or
/// more operands, `into`, the destination register, `as` and the cast type, with whitespace
/// between them; the parts must make a cast. The length of the rest and the cast.
pub open spec fn spec_parse_cast(variant: u8, t: Seq<char>) -> Option<(nat, CastView)> {
    let op = spec_cast_opcode(variant);
    if !starts_with(t, op) {
        None
    } else {
        let t0 = after(t, op);
        match spec_ws_operands_many(t0) {
            Some((k1, operands)) => if operands.len() == 0 {
                None
            } else {
                match spec_into_register_as(tail(t0, k1)) {
                    Some((k2, destination)) => match spec_parse_cast_type(tail(tail(t0, k1), k2)) {
                        Some((k3, cast_type)) => if cast_parts_ok(cast_type, operands, destination) {
                            Some((k3, CastView { variant, operands, destination, cast_type }))
                        } else {
                            None
                        },
                        None => None,
                    },
                    None => None,
                }
            },
            None => None,
        }
    }
}

/// The printed cast.
pub open spec fn cast_text(c: CastView) -> Seq<char> {
    into_as_text(spec_cast_opcode(c.variant), c.operands, c.destination) + cast_type_text(c.cast_type)
}

impl CastOperation {
    /// Parses a cast of the variant from the start of the characters.
    pub fn parse_chars(variant: u8, t: &[char]) -> (r: Option<(usize, CastOperation)>)
        requires
            variant < 2,
        ensures
            spec_parse_cast(variant, t@) == match r {
                Some((k, c)) => Some((k as nat, c@)),
                None => None::<(nat, CastView)>,
            },
            r matches Some((k, c)) ==> k <= t@.len() && c.wf(),
    {
        let op = chars_of(cast_opcode(variant));
        if !has_prefix(t, &op) {
            return None;
        }
        let t0 = tail_of(t, t.len() - op.len());
        let (k1, operands) = match ws_operands_many(t0) {
            Some(found) => found,
            None => return None,
        };
        if operands.len() == 0 {
            return None;
        }
        let t1 = tail_of(t0, k1);
        let (k2, destination) = match into_register_as(t1) {
            Some(found) => found,
            None => return None,
        };
        let (k3, cast_type) = match CastType::parse_chars(tail_of(t1, k2)) {
            Some(found) => found,
            None => return None,
        };
        match CastOperation::new(variant, operands, destination, cast_type) {
            Some(c) => Some((k3, c)),
            None => None,
        }
    }

    /// Parses a cast of the variant from the start of the string: the rest of the string and
    /// the cast.
    pub fn parse(variant: u8, string: &str) -> (r: Option<(String, CastOperation)>)
        requires
            variant < 2,
        ensures
            match spec_parse_cast(variant, string@) {
                Some((k, c)) => r matches Some((rest, x)) && rest@ == tail(string@, k) && x@ == c && x.wf(),
                None => r is None,
            },
    {
        let s = chars_of(string);
        match CastOperation::parse_chars(variant, &s) {
            Some((k, c)) => Some((string_of(tail_of(&s, k)), c)),
            None => None,
        }
    }

    /// Parses a cast of the variant from the whole string.
    pub fn from_str(variant: u8, string: &str) -> (r: Option<CastOperation>)
        requires
            variant < 2,
        ensures
            match spec_parse_cast(variant, string@) {
                Some((k, c)) => if k == 0 {
                    r matches Some(x) && x@ == c
                } else {
                    r is None
                },
                None => r is None,
            },
    {
        let s = chars_of(string);
        match CastOperation::parse_chars(variant, &s) {
            Some((k, c)) => if k == 0 {
                Some(c)
            } else {
                None
            },
            None => None,
        }
    }

    /// Returns the printed cast.
    pub fn to_string(&self) -> (r: String)
        requires
            self.wf(),
        ensures
            r@ == cast_text(self@),
    {
        let mut out: Vec<char> = Vec::new();
        write_into_as(&mut out, cast_opcode(self.variant), self.operands.as_slice(), &self.destination);
        self.cast_type.write_text(&mut out);
        assert(out@ =~= cast_text(self@));
        string_of(&out)
    }
}

/// Where the plaintext inputs from position `i` on first fail to have the expected type:
/// `equivalent[j]` is whether input `j` has it (`None` where that could not be decided), and
/// an input that is not plaintext never has it.
pub open spec fn first_member_error(ts: Seq<RegisterTypeView>, equivalent: Seq<Option<bool>>, i: nat) -> Option<
    TypeError,
>
    decreases ts.len() - i,
{
    if i >= ts.len() {
        None
    } else {
        match ts[i as int] {
            RegisterTypeView::Plaintext(_) => match equivalent[i as int] {
                None => Some(TypeError::UnresolvedType(i as usize)),
                Some(false) => Some(TypeError::InputType(i as usize)),
                Some(true) => first_member_error(ts, equivalent, i + 1),
            },
            _ => Some(TypeError::InputType(i as usize)),
        }
    }
}

/// Where the inputs from position `i` on first differ from the record's entry types, which
/// start at the input after the owner.
pub open spec fn first_entry_error(ts: Seq<RegisterTypeView>, entries: Seq<PlaintextTypeView>, i: nat) -> Option<
    TypeError,
>
    decreases ts.len() - i,
{
    if i >= ts.len() {
        None
    } else if ts[i as int] == RegisterTypeView::Plaintext(entries[i - 1]) {
        first_entry_error(ts, entries, i + 1)
    } else {
        Some(TypeError::InputType(i as usize))
    }
}

/// Why inputs of the types do not fill a struct or an array of `expected` members or elements
/// between `min` and `max`, if they do not.
pub open spec fn members_error(
    ts: Seq<RegisterTypeView>,
    equivalent: Seq<Option<bool>>,
    expected: nat,
    min: nat,
    max: nat,
) -> Option<TypeError> {
    if ts.len() < min {
        Some(TypeError::TooFewInputs)
    } else if ts.len() > max {
        Some(TypeError::TooManyInputs)
    } else if ts.len() != expected {
        Some(TypeError::InputCount(expected as usize))
    } else {
        first_member_error(ts, equivalent, 0)
    }
}

/// The type that a cast into the cast type produces.
pub open spec fn cast_output_type(c: CastTypeView) -> RegisterTypeView {
    match c {
        CastTypeView::GroupXCoordinate => RegisterTypeView::Plaintext(PlaintextTypeView::Literal(LiteralType::Field)),
        CastTypeView::GroupYCoordinate => RegisterTypeView::Plaintext(PlaintextTypeView::Literal(LiteralType::Field)),
        CastTypeView::Plaintext(p) => RegisterTypeView::Plaintext(p),
        CastTypeView::Record(n) => RegisterTypeView::Record(n),
        CastTypeView::ExternalRecord(p, n) => RegisterTypeView::ExternalRecord(p, n),
        CastTypeView::DynamicRecord => RegisterTypeView::DynamicRecord,
    }
}

/// Why a cast refuses the input types, if it does. `definition` is what the programs define
/// for a struct or record cast type: the struct's member types, or the plaintext types of the
/// record's entries (`None` if it is not defined); `equivalent` says, for each input, whether
/// its plaintext type is the member or element type that the struct or array expects there.
pub open spec fn cast_output_error(
    c: CastView,
    ts: Seq<RegisterTypeView>,
    definition: Option<Seq<PlaintextTypeView>>,
    equivalent: Seq<Option<bool>>,
) -> Option<TypeError> {
    let limits = mainnet_data_limits();
    if c.variant == 1 && !(c.cast_type matches CastTypeView::Plaintext(PlaintextTypeView::Literal(_))) {
        Some(TypeError::LossyCastTarget)
    } else if ts.len() != c.operands.len() {
        Some(TypeError::InputCount(c.operands.len() as usize))
    } else {
        match c.cast_type {
            CastTypeView::GroupXCoordinate | CastTypeView::GroupYCoordinate => if ts.len() != 1 {
                Some(TypeError::InputCount(1))
            } else if ts[0] != RegisterTypeView::Plaintext(PlaintextTypeView::Literal(LiteralType::Group)) {
                Some(TypeError::InputType(0))
            } else {
                None
            },
            CastTypeView::Plaintext(PlaintextTypeView::Literal(_)) => if ts.len() != 1 {
                Some(TypeError::InputCount(1))
            } else {
                None
            },
            CastTypeView::Plaintext(PlaintextTypeView::Struct(_))
            | CastTypeView::Plaintext(PlaintextTypeView::ExternalStruct(..)) => match definition {
                None => Some(TypeError::UndefinedType),
                Some(members) => members_error(
                    ts,
                    equivalent,
                    members.len(),
                    limits.min_struct_entries as nat,
                    limits.max_struct_entries as nat,
                ),
            },
            CastTypeView::Plaintext(PlaintextTypeView::Array(_, n)) => members_error(
                ts,
                equivalent,
                n as nat,
                limits.min_array_elements as nat,
                limits.max_array_elements as nat,
            ),
            CastTypeView::Record(_) => match definition {
                None => Some(TypeError::UndefinedType),
                Some(entries) => if ts.len() < limits.min_record_entries {
                    Some(TypeError::TooFewInputs)
                } else if ts.len() > limits.max_record_entries {
                    Some(TypeError::TooManyInputs)
                } else if ts.len() != entries.len() + 1 {
                    Some(
                        TypeError::InputCount(
                            if entries.len() + 1 > usize::MAX {
                                usize::MAX
                            } else {
                                (entries.len() + 1) as usize
                            },
                        ),
                    )
                } else if ts[0] != RegisterTypeView::Plaintext(PlaintextTypeView::Literal(LiteralType::Address)) {
                    Some(TypeError::InputType(0))
                } else {
                    first_entry_error(ts, entries, 1)
                },
            },
            CastTypeView::ExternalRecord(..) => Some(TypeError::ExternalRecordCast),
            CastTypeView::DynamicRecord => if ts.len() != 1 {
                Some(TypeError::InputCount(1))
            } else if !(ts[0] is Record || ts[0] is ExternalRecord) {
                Some(TypeError::InputType(0))
            } else {
                None
            },
        }
    }
}

/// The definition as plain values.
pub open spec fn definition_view(d: Option<Vec<PlaintextType>>) -> Option<Seq<PlaintextTypeView>> {
    match d {
        Some(v) => Some(v@.map_values(|p: PlaintextType| p@)),
        None => None,
    }
}

fn members_check(
    input_types: &Vec<RegisterType>,
    equivalent: &Vec<Option<bool>>,
    expected: usize,
    min: usize,
    max: usize,
) -> (r: Option<TypeError>)
    requires
        equivalent@.len() == input_types@.len(),
    ensures
        r == members_error(register_types_view(input_types@), equivalent@, expected as nat, min as nat, max as nat),
{
    let ghost ts = register_types_view(input_types@);
    if input_types.len() < min {
        return Some(TypeError::TooFewInputs);
    }
    if input_types.len() > max {
        return Some(TypeError::TooManyInputs);
    }
    if input_types.len() != expected {
        return Some(TypeError::InputCount(expected));
    }
    let mut i: usize = 0;
    while i < input_types.len()
        invariant
            i <= input_types@.len(),
            min <= input_types@.len() <= max,
            input_types@.len() == expected,
            equivalent@.len() == input_types@.len(),
            ts == register_types_view(input_types@),
            first_member_error(ts, equivalent@, 0) == first_member_error(ts, equivalent@, i as nat),
        decreases input_types.len() - i,
    {
        match &input_types[i] {
            RegisterType::Plaintext(_) => match equivalent[i] {
                None => return Some(TypeError::UnresolvedType(i)),
                Some(false) => return Some(TypeError::InputType(i)),
                Some(true) => {},
            },
            _ => {
                assert(!(ts[i as int] is Plaintext));
                return Some(TypeError::InputType(i));
            },
        }
        i = i + 1;
    }
    None
}

fn entries_check(input_types: &Vec<RegisterType>, entries: &Vec<PlaintextType>) -> (r: Option<TypeError>)
    requires
        input_types@.len() == entries@.len() + 1,
    ensures
        r == first_entry_error(
            register_types_view(input_types@),
            entries@.map_values(|p: PlaintextType| p@),
            1,
        ),
{
    let ghost ts = register_types_view(input_types@);
    let ghost es = entries@.map_values(|p: PlaintextType| p@);
    let mut i: usize = 1;
    while i < input_types.len()
        invariant
            1 <= i <= input_types@.len(),
            input_types@.len() == entries@.len() + 1,
            ts == register_types_view(input_types@),
            es == entries@.map_values(|p: PlaintextType| p@),
            first_entry_error(ts, es, 1) == first_entry_error(ts, es, i as nat),
        decreases input_types.len() - i,
    {
        let same = match &input_types[i] {
            RegisterType::Plaintext(p) => same_plaintext_type(p, &entries[i - 1]),
            _ => false,
        };
        if !same {
            return Some(TypeError::InputType(i));
        }
        i = i + 1;
    }
    None
}

fn output_of(c: &CastType) -> (r: Vec<RegisterType>)
    ensures
        register_types_view(r@) == seq![cast_output_type(c@)],
{
    let t = match c {
        CastType::GroupXCoordinate => RegisterType::Plaintext(PlaintextType::Literal(LiteralType::Field)),
        CastType::GroupYCoordinate => RegisterType::Plaintext(PlaintextType::Literal(LiteralType::Field)),
        CastType::Plaintext(p) => RegisterType::Plaintext(copy_plaintext_type(p)),
        CastType::Record(n) => RegisterType::Record(Identifier { name: n.name.clone() }),
        CastType::ExternalRecord(p, n) => RegisterType::ExternalRecord(
            ProgramID { name: p.name.clone(), network: p.network.clone() },
            Identifier { name: n.name.clone() },
        ),
        CastType::DynamicRecord => RegisterType::DynamicRecord,
    };
    let mut v: Vec<RegisterType> = Vec::new();
    v.push(t);
    assert(register_types_view(v@) =~= seq![cast_output_type(c@)]);
    v
}

impl CastOperation {
    /// Returns the output types of the cast with the input types: the type that it produces,
    /// or why the inputs are refused. `definition` is what the programs define for a struct or
    /// record cast type (the struct's member types, or the plaintext types of the record's
    /// entries; `None` if it is not defined), and `equivalent` says, for each input, whether
    /// its plaintext type is the one that the struct or array expects at that position
    /// (`None` where that could not be decided).
    pub fn output_types(
        &self,
        input_types: &Vec<RegisterType>,
        definition: &Option<Vec<PlaintextType>>,
        equivalent: &Vec<Option<bool>>,
    ) -> (r: Result<Vec<RegisterType>, TypeError>)
        requires
            equivalent@.len() == input_types@.len(),
        ensures
            match cast_output_error(self@, register_types_view(input_types@), definition_view(*definition), equivalent@) {
                Some(e) => r == Err::<Vec<RegisterType>, TypeError>(e),
                None => r matches Ok(v) && register_types_view(v@) == seq![cast_output_type(self@.cast_type)],
            },
    {
        let ghost ts = register_types_view(input_types@);
        let limits = data_limits();
        if self.variant == 1 {
            match &self.cast_type {
                CastType::Plaintext(PlaintextType::Literal(_)) => {},
                _ => return Err(TypeError::LossyCastTarget),
            }
        }
        if input_types.len() != self.operands.len() {
            return Err(TypeError::InputCount(self.operands.len()));
        }
        let error = match &self.cast_type {
            CastType::GroupXCoordinate | CastType::GroupYCoordinate => if input_types.len() != 1 {
                Some(TypeError::InputCount(1))
            } else {
                match &input_types[0] {
                    RegisterType::Plaintext(PlaintextType::Literal(LiteralType::Group)) => None,
                    _ => Some(TypeError::InputType(0)),
                }
            },
            CastType::Plaintext(PlaintextType::Literal(_)) => if input_types.len() != 1 {
                Some(TypeError::InputCount(1))
            } else {
                None
            },
            CastType::Plaintext(PlaintextType::Struct(_)) | CastType::Plaintext(PlaintextType::ExternalStruct(..)) => {
                match definition {
                    None => Some(TypeError::UndefinedType),
                    Some(members) => members_check(
                        input_types,
                        equivalent,
                        members.len(),
                        limits.min_struct_entries,
                        limits.max_struct_entries,
                    ),
                }
            },
            CastType::Plaintext(PlaintextType::Array(_, n)) => members_check(
                input_types,
                equivalent,
                *n as usize,
                limits.min_array_elements,
                limits.max_array_elements,
            ),
            CastType::Record(_) => match definition {
                None => Some(TypeError::UndefinedType),
                Some(entries) => if input_types.len() < limits.min_record_entries {
                    Some(TypeError::TooFewInputs)
                } else if input_types.len() > limits.max_record_entries {
                    Some(TypeError::TooManyInputs)
                } else if input_types.len() - 1 != entries.len() {
                    Some(TypeError::InputCount(entries.len().saturating_add(1)))
                } else {
                    match &input_types[0] {
                        RegisterType::Plaintext(PlaintextType::Literal(LiteralType::Address)) => entries_check(
                            input_types,
                            entries,
                        ),
                        _ => Some(TypeError::InputType(0)),
                    }
                },
            },
            CastType::ExternalRecord(..) => Some(TypeError::ExternalRecordCast),
            CastType::DynamicRecord => if input_types.len() != 1 {
                Some(TypeError::InputCount(1))
            } else {
                match &input_types[0] {
                    RegisterType::Record(_) | RegisterType::ExternalRecord(..) => None,
                    _ => Some(TypeError::InputType(0)),
                }
            },
        };
        match error {
            Some(e) => Err(e),
            None => Ok(output_of(&self.cast_type)),
        }
    }
}


/// A cast into a coordinate of a group element (`group.x` or `group.y`) accepts exactly one
/// input, a group element, and produces a field element; any other cast produces the type it
/// names: a plaintext cast its plaintext type, a record cast its record.
pub proof fn lemma_cast_output_type(
    c: CastView,
    ts: Seq<RegisterTypeView>,
    definition: Option<Seq<PlaintextTypeView>>,
    equivalent: Seq<Option<bool>>,
)
    ensures
        (c.cast_type is GroupXCoordinate || c.cast_type is GroupYCoordinate) ==> {
            &&& cast_output_type(c.cast_type) == RegisterTypeView::Plaintext(PlaintextTypeView::Literal(LiteralType::Field))
            &&& (cast_output_error(c, ts, definition, equivalent) is None <==> (c.variant != 1
                && c.operands.len() == 1 && ts == seq![RegisterTypeView::Plaintext(PlaintextTypeView::Literal(LiteralType::Group))]))
        },
        forall|p: PlaintextTypeView| c.cast_type == CastTypeView::Plaintext(p) ==> cast_output_type(c.cast_type)
            == RegisterTypeView::Plaintext(p),
        forall|n: Seq<char>| c.cast_type == CastTypeView::Record(n) ==> cast_output_type(c.cast_type)
            == RegisterTypeView::Record(n),
        c.cast_type is DynamicRecord ==> cast_output_type(c.cast_type) == RegisterTypeView::DynamicRecord,
{
    if c.cast_type is GroupXCoordinate || c.cast_type is GroupYCoordinate {
        if c.variant != 1 && c.operands.len() == 1 && ts.len() == 1 && ts[0] == RegisterTypeView::Plaintext(
            PlaintextTypeView::Literal(LiteralType::Group),
        ) {
            assert(ts =~= seq![RegisterTypeView::Plaintext(PlaintextTypeView::Literal(LiteralType::Group))]);
        }
    }
}

} // verus!
