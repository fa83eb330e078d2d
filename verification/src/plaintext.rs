//! Plaintext types as text: the names of literal types, and the parsing and printing of
//! plaintext types such as `u64`, `token`, `credits.aleo/token` and `[[boolean; 8u32]; 4u32]`.
use vstd::prelude::*;

use crate::console::{console_plaintext_type, data_limits, mainnet_data_limits, type_base_view, TypeBase};
use crate::operand::{program_id_text, Identifier, ProgramID};
use crate::text::{chars_of, decimal, push_all, push_decimal, same_chars, same_text, string_of};
use crate::types::{literal_type_from_id, nest_arrays, LiteralType, PlaintextType, PlaintextTypeView};

verus! {

/// The name of a literal type, as console prints it.
pub open spec fn literal_type_name(l: LiteralType) -> Seq<char> {
    match l {
        LiteralType::Address => "address"@,
        LiteralType::Boolean => "boolean"@,
        LiteralType::Field => "field"@,
        LiteralType::Group => "group"@,
        LiteralType::I8 => "i8"@,
        LiteralType::I16 => "i16"@,
        LiteralType::I32 => "i32"@,
        LiteralType::I64 => "i64"@,
        LiteralType::I128 => "i128"@,
        LiteralType::U8 => "u8"@,
        LiteralType::U16 => "u16"@,
        LiteralType::U32 => "u32"@,
        LiteralType::U64 => "u64"@,
        LiteralType::U128 => "u128"@,
        LiteralType::Scalar => "scalar"@,
        LiteralType::Signature => "signature"@,
        LiteralType::String => "string"@,
        LiteralType::Identifier => "identifier"@,
    }
}

/// Returns the name of the literal type.
pub fn literal_type_text(l: LiteralType) -> (r: &'static str)
    ensures
        r@ == literal_type_name(l),
{
    match l {
        LiteralType::Address => "address",
        LiteralType::Boolean => "boolean",
        LiteralType::Field => "field",
        LiteralType::Group => "group",
        LiteralType::I8 => "i8",
        LiteralType::I16 => "i16",
        LiteralType::I32 => "i32",
        LiteralType::I64 => "i64",
        LiteralType::I128 => "i128",
        LiteralType::U8 => "u8",
        LiteralType::U16 => "u16",
        LiteralType::U32 => "u32",
        LiteralType::U64 => "u64",
        LiteralType::U128 => "u128",
        LiteralType::Scalar => "scalar",
        LiteralType::Signature => "signature",
        LiteralType::String => "string",
        LiteralType::Identifier => "identifier",
    }
}

/// The literal type with the name, if there is one.
pub open spec fn literal_type_named(name: Seq<char>) -> Option<LiteralType> {
    if exists|l: LiteralType| literal_type_name(l) == name {
        Some(choose|l: LiteralType| literal_type_name(l) == name)
    } else {
        None
    }
}

proof fn lemma_names_distinct(a: LiteralType, b: LiteralType)
    ensures
        literal_type_name(a) == literal_type_name(b) ==> a == b,
{
    reveal_strlit("address");
    reveal_strlit("boolean");
    reveal_strlit("field");
    reveal_strlit("group");
    reveal_strlit("i8");
    reveal_strlit("i16");
    reveal_strlit("i32");
    reveal_strlit("i64");
    reveal_strlit("i128");
    reveal_strlit("u8");
    reveal_strlit("u16");
    reveal_strlit("u32");
    reveal_strlit("u64");
    reveal_strlit("u128");
    reveal_strlit("scalar");
    reveal_strlit("signature");
    reveal_strlit("string");
    reveal_strlit("identifier");
    if literal_type_name(a) == literal_type_name(b) {
        let na = literal_type_name(a);
        let nb = literal_type_name(b);
        assert(na.len() == nb.len());
        assert(na[0] == nb[0]);
        if na.len() > 1 {
            assert(na[1] == nb[1]);
        }
        if na.len() > 2 {
            assert(na[2] == nb[2]);
        }
        if na.len() > 3 {
            assert(na[3] == nb[3]);
        }
    }
}

/// Returns the literal type with the name, if there is one.
pub fn literal_type_of_name(name: &[char]) -> (r: Option<LiteralType>)
    ensures
        r == literal_type_named(name@),
{
    let all = [
        LiteralType::Address, LiteralType::Boolean, LiteralType::Field, LiteralType::Group, LiteralType::I8,
        LiteralType::I16, LiteralType::I32, LiteralType::I64, LiteralType::I128, LiteralType::U8,
        LiteralType::U16, LiteralType::U32, LiteralType::U64, LiteralType::U128, LiteralType::Scalar,
        LiteralType::Signature, LiteralType::String, LiteralType::Identifier,
    ];
    let mut i: usize = 0;
    while i < 18
        invariant
            i <= 18,
            all@ == seq![
                LiteralType::Address, LiteralType::Boolean, LiteralType::Field, LiteralType::Group, LiteralType::I8,
                LiteralType::I16, LiteralType::I32, LiteralType::I64, LiteralType::I128, LiteralType::U8,
                LiteralType::U16, LiteralType::U32, LiteralType::U64, LiteralType::U128, LiteralType::Scalar,
                LiteralType::Signature, LiteralType::String, LiteralType::Identifier,
            ],
            forall|j: int| 0 <= j < i ==> literal_type_name(#[trigger] all@[j]) != name@,
        decreases 18 - i,
    {
        let l = all[i];
        if same_chars(&chars_of(literal_type_text(l)), name) {
            proof {
                assert forall|m: LiteralType| literal_type_name(m) == name@ implies m == l by {
                    lemma_names_distinct(m, l);
                }
            }
            return Some(l);
        }
        i = i + 1;
    }
    proof {
        assert forall|m: LiteralType| literal_type_name(m) != name@ by {
            match m {
                LiteralType::Address => assert(all@[0] == m),
                LiteralType::Boolean => assert(all@[1] == m),
                LiteralType::Field => assert(all@[2] == m),
                LiteralType::Group => assert(all@[3] == m),
                LiteralType::I8 => assert(all@[4] == m),
                LiteralType::I16 => assert(all@[5] == m),
                LiteralType::I32 => assert(all@[6] == m),
                LiteralType::I64 => assert(all@[7] == m),
                LiteralType::I128 => assert(all@[8] == m),
                LiteralType::U8 => assert(all@[9] == m),
                LiteralType::U16 => assert(all@[10] == m),
                LiteralType::U32 => assert(all@[11] == m),
                LiteralType::U64 => assert(all@[12] == m),
                LiteralType::U128 => assert(all@[13] == m),
                LiteralType::Scalar => assert(all@[14] == m),
                LiteralType::Signature => assert(all@[15] == m),
                LiteralType::String => assert(all@[16] == m),
                LiteralType::Identifier => assert(all@[17] == m),
            }
        }
    }
    None
}

/// What console's plaintext type parser reads from the start of the text: the length of the
/// rest and the type.
pub open spec fn spec_parse_plaintext_type(t: Seq<char>) -> Option<(nat, PlaintextTypeView)> {
    console_plaintext_type(t)
}

fn base_type(b: TypeBase) -> (r: PlaintextType)
    requires
        b matches TypeBase::Literal(id) ==> id < 18,
    ensures
        r@ == type_base_view(b),
{
    match b {
        TypeBase::Literal(id) => PlaintextType::Literal(literal_type_from_id(id)),
        TypeBase::Struct(n) => PlaintextType::Struct(Identifier { name: n }),
        TypeBase::External(name, network, n) => PlaintextType::ExternalStruct(
            ProgramID { name, network },
            Identifier { name: n },
        ),
    }
}

/// Parses a plaintext type from the start of the characters with console's parser.
pub fn parse_plaintext_type(t: &[char]) -> (r: Option<(usize, PlaintextType)>)
    ensures
        spec_parse_plaintext_type(t@) == match r {
            Some((k, p)) => Some((k as nat, p@)),
            None => None::<(nat, PlaintextTypeView)>,
        },
        r matches Some((k, _)) ==> k <= t@.len(),
{
    let (k, base, lengths) = match crate::console::plaintext_type(t) {
        Some(found) => found,
        None => return None,
    };
    Some((k, nest(base, &lengths)))
}

/// The type made by wrapping the innermost part in arrays of the lengths, the first length
/// outermost.
pub(crate) fn nest(base: TypeBase, lengths: &Vec<u32>) -> (r: PlaintextType)
    requires
        base matches TypeBase::Literal(id) ==> id < 18,
    ensures
        r@ == nest_arrays(type_base_view(base), lengths@),
{
    let ghost bv = type_base_view(base);
    let mut p = base_type(base);
    let mut i: usize = lengths.len();
    while i > 0
        invariant
            i <= lengths@.len(),
            p@ == nest_arrays(bv, lengths@.skip(i as int)),
        decreases i,
    {
        i = i - 1;
        proof {
            assert(lengths@.skip(i as int).drop_first() =~= lengths@.skip(i + 1));
        }
        p = PlaintextType::Array(Box::new(p), lengths[i]);
    }
    assert(lengths@.skip(0) =~= lengths@);
    p
}

/// The printed plaintext type.
pub open spec fn plaintext_type_text(p: PlaintextTypeView) -> Seq<char>
    decreases p,
{
    match p {
        PlaintextTypeView::Literal(l) => literal_type_name(l),
        PlaintextTypeView::Struct(n) => n,
        PlaintextTypeView::ExternalStruct(id, n) => program_id_text(id) + "/"@ + n,
        PlaintextTypeView::Array(e, n) => "["@ + plaintext_type_text(*e) + "; "@ + decimal(n as nat) + "u32]"@,
    }
}

impl PlaintextType {
    /// Appends the printed type to the characters.
    pub fn write_text(&self, out: &mut Vec<char>)
        ensures
            final(out)@ == old(out)@ + plaintext_type_text(self@),
        decreases self,
    {
        let ghost start = out@;
        match self {
            PlaintextType::Literal(l) => push_all(out, &chars_of(literal_type_text(*l))),
            PlaintextType::Struct(n) => push_all(out, &chars_of(n.name.as_str())),
            PlaintextType::ExternalStruct(id, n) => {
                push_all(out, &chars_of(id.name.as_str()));
                push_all(out, &chars_of("."));
                push_all(out, &chars_of(id.network.as_str()));
                push_all(out, &chars_of("/"));
                push_all(out, &chars_of(n.name.as_str()));
            },
            PlaintextType::Array(e, n) => {
                push_all(out, &chars_of("["));
                e.write_text(out);
                push_all(out, &chars_of("; "));
                push_decimal(out, *n as u64);
                push_all(out, &chars_of("u32]"));
            },
        }
        assert(out@ =~= start + plaintext_type_text(self@));
    }

    /// Returns the printed type.
    pub fn to_string(&self) -> (r: String)
        ensures
            r@ == plaintext_type_text(self@),
    {
        let mut out: Vec<char> = Vec::new();
        self.write_text(&mut out);
        assert(out@ =~= plaintext_type_text(self@));
        string_of(&out)
    }

    /// Parses a plaintext type from the whole string.
    pub fn from_str(string: &str) -> (r: Option<PlaintextType>)
        ensures
            match spec_parse_plaintext_type(string@) {
                Some((k, p)) => if k == 0 {
                    r matches Some(x) && x@ == p
                } else {
                    r is None
                },
                None => r is None,
            },
    {
        let s = chars_of(string);
        match parse_plaintext_type(&s) {
            Some((k, p)) => if k == 0 {
                Some(p)
            } else {
                None
            },
            None => None,
        }
    }
}

/// Returns `true` if the two plaintext types are the same.
pub fn same_plaintext_type(a: &PlaintextType, b: &PlaintextType) -> (r: bool)
    ensures
        r == (a@ == b@),
    decreases a,
{
    match (a, b) {
        (PlaintextType::Literal(x), PlaintextType::Literal(y)) => *x == *y,
        (PlaintextType::Struct(x), PlaintextType::Struct(y)) => same_text(x.name.as_str(), y.name.as_str()),
        (PlaintextType::ExternalStruct(p, x), PlaintextType::ExternalStruct(q, y)) => same_text(
            p.name.as_str(),
            q.name.as_str(),
        ) && same_text(p.network.as_str(), q.network.as_str()) && same_text(x.name.as_str(), y.name.as_str()),
        (PlaintextType::Array(x, n), PlaintextType::Array(y, m)) => {
            if *n != *m {
                return false;
            }
            let same = same_plaintext_type(x, y);
            proof {
                if !same {
                    assert(a@ != b@) by {
                        if a@ == b@ {
                            assert(x@ == y@);
                        }
                    }
                }
            }
            same
        },
        _ => false,
    }
}

/// Whether an array whose element type is `e` holds identifiers, looking through at most
/// `fuel` levels of arrays (`None` if there are more).
pub open spec fn array_holds_identifier(e: PlaintextTypeView, fuel: nat) -> Option<bool>
    decreases fuel,
{
    if fuel == 0 {
        None
    } else {
        match e {
            PlaintextTypeView::Literal(l) => Some(l == LiteralType::Identifier),
            PlaintextTypeView::Array(inner, _) => array_holds_identifier(*inner, (fuel - 1) as nat),
            _ => Some(false),
        }
    }
}

/// Whether the type holds identifiers, as console's `PlaintextType::contains_identifier_type`
/// decides it: an identifier, or an array of them no deeper than the network's most data
/// depth (`None` for a deeper array); structs are checked where they are defined.
pub open spec fn holds_identifier(t: PlaintextTypeView) -> Option<bool> {
    match t {
        PlaintextTypeView::Literal(l) => Some(l == LiteralType::Identifier),
        PlaintextTypeView::Array(e, _) => array_holds_identifier(*e, mainnet_data_limits().max_data_depth as nat),
        _ => Some(false),
    }
}

/// Whether an array of `n` elements of type `e`, or an array inside it, is longer than `max`,
/// looking through at most `fuel` levels of arrays (`true` if there are more).
pub open spec fn array_exceeds(e: PlaintextTypeView, n: u32, max: u32, fuel: nat) -> bool
    decreases fuel,
{
    if fuel == 0 {
        true
    } else if n > max {
        true
    } else {
        match e {
            PlaintextTypeView::Array(inner, m) => array_exceeds(*inner, m, max, (fuel - 1) as nat),
            _ => false,
        }
    }
}

/// Whether the type is an array longer than `max` or holds one, as console's
/// `PlaintextType::exceeds_max_array_size` decides it (an array deeper than the network's most
/// data depth counts as too large).
pub open spec fn exceeds_array_size(t: PlaintextTypeView, max: u32) -> bool {
    match t {
        PlaintextTypeView::Array(e, n) => array_exceeds(*e, n, max, (mainnet_data_limits().max_data_depth + 1) as nat),
        _ => false,
    }
}

fn array_holds_identifier_of(e: &PlaintextType, fuel: usize) -> (r: Option<bool>)
    ensures
        r == array_holds_identifier(e@, fuel as nat),
    decreases fuel,
{
    if fuel == 0 {
        return None;
    }
    match e {
        PlaintextType::Literal(l) => Some(*l == LiteralType::Identifier),
        PlaintextType::Array(inner, _) => array_holds_identifier_of(inner, fuel - 1),
        _ => Some(false),
    }
}

fn array_exceeds_of(e: &PlaintextType, n: u32, max: u32, fuel: usize) -> (r: bool)
    ensures
        r == array_exceeds(e@, n, max, fuel as nat),
    decreases fuel,
{
    if fuel == 0 || n > max {
        return true;
    }
    match e {
        PlaintextType::Array(inner, m) => array_exceeds_of(inner, *m, max, fuel - 1),
        _ => false,
    }
}

impl PlaintextType {
    /// Returns whether the type holds identifiers: `None` for an array deeper than the
    /// network's most data depth.
    pub fn contains_identifier_type(&self) -> (r: Option<bool>)
        ensures
            r == holds_identifier(self@),
    {
        match self {
            PlaintextType::Literal(l) => Some(*l == LiteralType::Identifier),
            PlaintextType::Array(e, _) => array_holds_identifier_of(e, data_limits().max_data_depth),
            _ => Some(false),
        }
    }

    /// Returns `true` if the type is an array longer than `max_array_size` or holds one.
    pub fn exceeds_max_array_size(&self, max_array_size: u32) -> (r: bool)
        ensures
            r == exceeds_array_size(self@, max_array_size),
    {
        match self {
            PlaintextType::Array(e, n) => array_exceeds_of(e, *n, max_array_size, data_limits().max_data_depth + 1),
            _ => false,
        }
    }
}

} // verus!
