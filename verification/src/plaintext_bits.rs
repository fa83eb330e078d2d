//! Reading a plaintext value back from its bits, given its type and the struct definitions
//! that the type names: the bit layout that the `deserialize.bits` and `deserialize.bits.raw`
//! instructions read.
use vstd::prelude::*;

use crate::console::{
    console_literal_is_field, console_literal_u8, literal_is_field, literal_u8, texts_view,
    console_identifier_from_bits, console_plaintext_bits, console_plaintext_bits_raw, console_size_in_bits_raw,
    plaintext_bits, plaintext_bits_raw, size_in_bits_raw, console_identifier_size, console_literal_from_bits, console_literal_size,
    console_size_in_bits, console_struct_members, data_limits, identifier_from_bits, identifier_size_in_bits,
    literal_from_bits, literal_size_in_bits, mainnet_data_limits, size_in_bits, struct_members,
    plaintext_bits_fit, plaintext_parts, console_plaintext_parts,
};
use crate::operand::{Identifier, ProgramID, ProgramIDView};
use crate::plaintext::{plaintext_type_text, spec_parse_plaintext_type};
use crate::program::{Definition, DefinitionView};
use crate::types::{literal_type_id, LiteralType, PlaintextType, PlaintextTypeView};
use crate::text::{chars_of, push_all, string_of};
use crate::serialize::{array_length, bit_array, is_bit_array, length_of};
use crate::variants::{DeserializeVariant, SerializeVariant};

verus! {

/// A struct definition of another program, with the program that defines it.
#[derive(Clone, Debug, PartialEq, Eq)]
pub struct ExternalDefinition {
    pub program: ProgramID,
    pub definition: Definition,
}

/// The struct definitions that a type may name: those of the program itself, found by name,
/// and those of other programs, found by program and name.
#[derive(Clone, Debug, PartialEq, Eq)]
pub struct StructTable {
    pub local: Vec<Definition>,
    pub external: Vec<ExternalDefinition>,
}

/// The mathematical value of a table of struct definitions.
pub ghost struct StructTableView {
    pub local: Seq<DefinitionView>,
    pub external: Seq<(ProgramIDView, DefinitionView)>,
}

impl View for StructTable {
    type V = StructTableView;

    open spec fn view(&self) -> StructTableView {
        StructTableView {
            local: self.local@.map_values(|d: Definition| d@),
            external: self.external@.map_values(|e: ExternalDefinition| (e.program@, e.definition@)),
        }
    }
}

/// The printed form of the first definition with the name, or the empty text if there is none.
pub open spec fn local_text(defs: Seq<DefinitionView>, name: Seq<char>) -> Seq<char>
    decreases defs.len(),
{
    if defs.len() == 0 {
        Seq::empty()
    } else if defs[0].name == name {
        defs[0].text
    } else {
        local_text(defs.drop_first(), name)
    }
}

/// The printed form of the first definition of the program with the name, or the empty text if
/// there is none.
pub open spec fn external_text(
    defs: Seq<(ProgramIDView, DefinitionView)>,
    program: ProgramIDView,
    name: Seq<char>,
) -> Seq<char>
    decreases defs.len(),
{
    if defs.len() == 0 {
        Seq::empty()
    } else if defs[0].0 == program && defs[0].1.name == name {
        defs[0].1.text
    } else {
        external_text(defs.drop_first(), program, name)
    }
}

impl StructTable {
    /// Returns the printed definition of the program's own struct with the name, or the empty
    /// text if there is none.
    pub fn local_text(&self, name: &str) -> (r: &str)
        ensures
            r@ == local_text(self@.local, name@),
    {
        let ghost defs = self@.local;
        assert(defs.subrange(0, defs.len() as int) =~= defs);
        let mut i: usize = 0;
        while i < self.local.len()
            invariant
                i <= self.local@.len(),
                defs == self@.local,
                local_text(defs, name@) == local_text(defs.subrange(i as int, defs.len() as int), name@),
            decreases self.local.len() - i,
        {
            let d = &self.local[i];
            proof {
                let s = defs.subrange(i as int, defs.len() as int);
                assert(s[0] == d@);
                assert(s.drop_first() =~= defs.subrange(i + 1, defs.len() as int));
            }
            if crate::text::same_text(d.name.name.as_str(), name) {
                return d.text.as_str();
            }
            i = i + 1;
        }
        proof {
            reveal_strlit("");
            assert(defs.subrange(i as int, defs.len() as int).len() == 0);
        }
        ""
    }

    /// Returns the printed definition of the struct with the name in the program
    /// `{program_name}.{network}`, or the empty text if there is none.
    pub fn external_text(&self, program_name: &str, network: &str, name: &str) -> (r: &str)
        ensures
            r@ == external_text(
                self@.external,
                ProgramIDView { name: program_name@, network: network@ },
                name@,
            ),
    {
        let ghost defs = self@.external;
        let ghost p = ProgramIDView { name: program_name@, network: network@ };
        assert(defs.subrange(0, defs.len() as int) =~= defs);
        let mut i: usize = 0;
        while i < self.external.len()
            invariant
                i <= self.external@.len(),
                defs == self@.external,
                p == (ProgramIDView { name: program_name@, network: network@ }),
                external_text(defs, p, name@) == external_text(
                    defs.subrange(i as int, defs.len() as int),
                    p,
                    name@,
                ),
            decreases self.external.len() - i,
        {
            let e = &self.external[i];
            proof {
                let s = defs.subrange(i as int, defs.len() as int);
                assert(s[0] == (e.program@, e.definition@));
                assert(s.drop_first() =~= defs.subrange(i + 1, defs.len() as int));
            }
            if crate::text::same_text(e.program.name.as_str(), program_name)
                && crate::text::same_text(e.program.network.as_str(), network)
                && crate::text::same_text(e.definition.name.name.as_str(), name) {
                return e.definition.text.as_str();
            }
            i = i + 1;
        }
        proof {
            reveal_strlit("");
            assert(defs.subrange(i as int, defs.len() as int).len() == 0);
        }
        ""
    }
}

/// A plaintext value: a literal, held as its printed form; a struct, held as the names of its
/// members and their values, in order; or an array of values.
#[derive(Debug, PartialEq, Eq)]
pub enum PlaintextValue {
    Literal(String),
    Struct(Vec<Identifier>, Vec<PlaintextValue>),
    Array(Vec<PlaintextValue>),
}

/// The mathematical value of a plaintext value.
pub ghost enum PlaintextValueView {
    Literal(Seq<char>),
    Struct(Seq<Seq<char>>, Seq<PlaintextValueView>),
    Array(Seq<PlaintextValueView>),
}

impl View for PlaintextValue {
    type V = PlaintextValueView;

    open spec fn view(&self) -> PlaintextValueView
        decreases self,
    {
        match self {
            PlaintextValue::Literal(t) => PlaintextValueView::Literal(t@),
            PlaintextValue::Struct(names, values) => PlaintextValueView::Struct(
                names@.map_values(|n: Identifier| n@),
                Seq::new(
                    values@.len(),
                    |i: int|
                        {
                            if 0 <= i < values@.len() {
                                proof {
                                    assert(decreases_to!(values@ => values@[i]));
                                }
                                values@[i].view()
                            } else {
                                PlaintextValueView::Literal(Seq::empty())
                            }
                        },
                ),
            ),
            PlaintextValue::Array(values) => PlaintextValueView::Array(
                Seq::new(
                    values@.len(),
                    |i: int|
                        {
                            if 0 <= i < values@.len() {
                                proof {
                                    assert(decreases_to!(values@ => values@[i]));
                                }
                                values@[i].view()
                            } else {
                                PlaintextValueView::Literal(Seq::empty())
                            }
                        },
                ),
            ),
        }
    }
}

/// The views of a sequence of values.
pub open spec fn values_view(v: Seq<PlaintextValue>) -> Seq<PlaintextValueView> {
    v.map_values(|x: PlaintextValue| x@)
}

/// The number that the bits give, least significant bit first.
pub open spec fn le_value(s: Seq<bool>) -> nat
    decreases s.len(),
{
    if s.len() == 0 {
        0
    } else {
        (if s[0] {
            1nat
        } else {
            0nat
        }) + 2 * le_value(s.drop_first())
    }
}

/// Two to the power `n`.
pub open spec fn two_to(n: nat) -> nat
    decreases n,
{
    if n == 0 {
        1
    } else {
        2 * two_to((n - 1) as nat)
    }
}

proof fn lemma_two_to_monotone(a: nat, b: nat)
    requires
        a <= b,
    ensures
        two_to(a) <= two_to(b),
    decreases b,
{
    if a < b {
        lemma_two_to_monotone(a, (b - 1) as nat);
    }
}

/// Reads the `n` bits from position `pos` on as a little-endian number, as the `from_bits_le`
/// of an unsigned integer of `n` bits does; `None` if there are not that many bits.
pub(crate) fn read_number(bits: &[bool], pos: usize, n: usize) -> (r: Option<u64>)
    requires
        pos <= bits@.len(),
        n <= 32,
    ensures
        match r {
            Some(v) => pos + n <= bits@.len() && v == le_value(bits@.subrange(pos as int, pos + n)) && v < two_to(
                n as nat,
            ),
            None => pos + n > bits@.len(),
        },
{
    if n > bits.len() - pos {
        return None;
    }
    let end = pos + n;
    let mut j: usize = end;
    let mut v: u64 = 0;
    proof {
        assert(bits@.subrange(end as int, end as int).len() == 0);
        assert(two_to(0) == 1);
    }
    while j > pos
        invariant
            pos <= j <= end,
            end == pos + n,
            end <= bits@.len(),
            n <= 32,
            v == le_value(bits@.subrange(j as int, end as int)),
            v < two_to((end - j) as nat),
        decreases j - pos,
    {
        proof {
            lemma_two_to_monotone((end - j + 1) as nat, 32);
            assert(two_to(32) == 4294967296) by {
                reveal_with_fuel(two_to, 33);
            }
            let s = bits@.subrange(j - 1, end as int);
            assert(s.drop_first() =~= bits@.subrange(j as int, end as int));
            assert(s[0] == bits@[j - 1]);
        }
        let b: u64 = if bits[j - 1] {
            1
        } else {
            0
        };
        v = 2 * v + b;
        j = j - 1;
    }
    Some(v)
}

/// Console's size in bits of the type: of its bare values (`size_in_bits_raw`) where `raw`,
/// else with the metadata of each part (`size_in_bits`).
pub open spec fn type_size(t: PlaintextTypeView, raw: bool, table: StructTableView) -> Option<nat> {
    if raw {
        console_size_in_bits_raw(plaintext_type_text(t), table)
    } else {
        console_size_in_bits(plaintext_type_text(t), table)
    }
}

/// Returns console's size in bits of the type, raw or with metadata.
pub(crate) fn size_of_type(t: &PlaintextType, raw: bool, table: &StructTable) -> (r: Option<usize>)
    ensures
        type_size(t@, raw, table@) == match r {
            Some(n) => Some(n as nat),
            None => None::<nat>,
        },
{
    let text = t.to_string();
    if raw {
        size_in_bits_raw(text.as_str(), table)
    } else {
        size_in_bits(text.as_str(), table)
    }
}

/// Console's bits of the plaintext written in the text: its bare values
/// (`to_bits_raw_le`) where `raw`, else with the metadata of each part (`to_bits_le`).
pub open spec fn value_bits(text: Seq<char>, raw: bool) -> Option<Seq<bool>> {
    if raw {
        console_plaintext_bits_raw(text)
    } else {
        console_plaintext_bits(text)
    }
}

/// A value's raw bits are console's `to_bits_raw_le` of it, its other bits console's
/// `to_bits_le`, which carry the metadata of each part.
pub proof fn lemma_value_bits(text: Seq<char>)
    ensures
        value_bits(text, true) == console_plaintext_bits_raw(text),
        value_bits(text, false) == console_plaintext_bits(text),
{
}

/// How many levels deep `value_fits` looks into a value: more than console reads.
pub open spec fn fit_depth() -> nat {
    64
}

/// Whether console's `to_bits_le` returns on the value: at every depth, the bits of each struct
/// member and of each array element number at most `u16::MAX`, and an array has at most
/// `u32::MAX` elements.
pub open spec fn value_fits(v: PlaintextValueView) -> bool {
    plaintext_bits_fit(value_text(v), fit_depth())
}

/// Returns whether console's `to_bits_le` returns on the plaintext written in the text, looking
/// `depth` levels deep.
fn text_bits_fit(text: &str, depth: u64) -> (r: bool)
    ensures
        r == plaintext_bits_fit(text@, depth as nat),
    decreases depth,
{
    if depth == 0 {
        return false;
    }
    let parts = match plaintext_parts(text) {
        Some(p) => p,
        None => return true,
    };
    if parts.len() > 0xFFFF_FFFF {
        return false;
    }
    let ghost ps = texts_view(parts@);
    let ghost d = (depth - 1) as nat;
    let mut i: usize = 0;
    while i < parts.len()
        invariant
            i <= parts@.len(),
            ps == texts_view(parts@),
            d == depth - 1,
            depth > 0,
            console_plaintext_parts(text@) == Some(ps),
            ps.len() <= u32::MAX,
            forall|j: int|
                0 <= j < i ==> plaintext_bits_fit(#[trigger] ps[j], d) && match console_plaintext_bits(ps[j]) {
                    Some(b) => b.len() <= u16::MAX,
                    None => false,
                },
        decreases parts.len() - i,
    {
        assert(ps[i as int] == parts@[i as int]@);
        if !text_bits_fit(parts[i].as_str(), depth - 1) {
            assert(!plaintext_bits_fit(ps[i as int], d));
            return false;
        }
        match plaintext_bits(parts[i].as_str()) {
            Some(b) => {
                if b.len() > 65535 {
                    assert(console_plaintext_bits(ps[i as int]) == Some(b@));
                    return false;
                }
            },
            None => {
                assert(console_plaintext_bits(ps[i as int]) is None);
                return false;
            },
        }
        i = i + 1;
    }
    true
}

impl PlaintextValue {
    /// Returns whether console's `to_bits_le` returns on the value: whether, at every depth, the
    /// bits of each struct member and of each array element number at most `u16::MAX`, and
    /// each array has at most `u32::MAX` elements.
    pub fn bits_fit(&self) -> (r: bool)
        ensures
            r == value_fits(self@),
    {
        let text = self.to_string();
        text_bits_fit(text.as_str(), 64)
    }
}

/// Returns console's bits of the value, raw or with metadata.
pub(crate) fn bits_of_value(v: &PlaintextValue, raw: bool) -> (r: Option<Vec<bool>>)
    requires
        !raw ==> value_fits(v@),
    ensures
        value_bits(value_text(v@), raw) == match r {
            Some(b) => Some(b@),
            None => None::<Seq<bool>>,
        },
{
    let text = v.to_string();
    if raw {
        plaintext_bits_raw(text.as_str())
    } else {
        assert(plaintext_bits_fit(text@, fit_depth()));
        plaintext_bits(text.as_str())
    }
}

/// The deepest that data may nest on the main network.
pub open spec fn depth_limit() -> nat {
    mainnet_data_limits().max_data_depth as nat
}

/// The `n` bits from position `pos` on, if there are that many.
pub open spec fn bits_at(bits: Seq<bool>, pos: nat, n: nat) -> Option<Seq<bool>> {
    if pos + n <= bits.len() {
        Some(bits.subrange(pos as int, (pos + n) as int))
    } else {
        None
    }
}

/// The little-endian number of the `n` bits from position `pos` on, if there are that many.
pub open spec fn number_at(bits: Seq<bool>, pos: nat, n: nat) -> Option<nat> {
    match bits_at(bits, pos, n) {
        Some(s) => Some(le_value(s)),
        None => None,
    }
}

/// The two bits that begin a literal, a struct and an array.
pub open spec fn literal_prefix() -> Seq<bool> {
    seq![false, false]
}

/// The two bits that begin a struct.
pub open spec fn struct_prefix() -> Seq<bool> {
    seq![false, true]
}

/// The two bits that begin an array.
pub open spec fn array_prefix() -> Seq<bool> {
    seq![true, false]
}

/// The type that the whole text gives, if it is a plaintext type.
pub open spec fn full_type(t: Seq<char>) -> Option<PlaintextTypeView> {
    match spec_parse_plaintext_type(t) {
        Some((k, p)) => if k == 0 {
            Some(p)
        } else {
            None
        },
        None => None,
    }
}

/// No name occurs twice.
pub open spec fn distinct_names(names: Seq<Seq<char>>) -> bool {
    forall|i: int, j: int| 0 <= i < j < names.len() ==> names[i] != names[j]
}

/// The names of the members.
pub open spec fn member_names(ms: Seq<(Seq<char>, Seq<char>)>) -> Seq<Seq<char>> {
    ms.map_values(|m: (Seq<char>, Seq<char>)| m.0)
}

/// The literal of the type that the bits give. With `from_bits` the bits begin with the literal
/// prefix, the 8-bit type id and the 16-bit size of the literal; then come the literal's own
/// bits, which console reads.
pub open spec fn spec_decode_literal(from_bits: bool, bits: Seq<bool>, l: LiteralType) -> Option<
    PlaintextValueView,
> {
    let id = literal_type_id(l);
    match console_literal_size(id) {
        None => None,
        Some(size) => {
            let start: Option<nat> = if from_bits {
                if bits_at(bits, 0, 2) == Some(literal_prefix()) && number_at(bits, 2, 8) == Some(id as nat)
                    && number_at(bits, 10, 16) == Some(size as nat) {
                    Some(26)
                } else {
                    None
                }
            } else {
                Some(0)
            };
            match start {
                None => None,
                Some(p) => match bits_at(bits, p, size as nat) {
                    None => None,
                    Some(lb) => match console_literal_from_bits(id, lb) {
                        None => None,
                        Some(text) => Some(PlaintextValueView::Literal(text)),
                    },
                },
            }
        },
    }
}

/// The plaintext of the type that the bits give, at the given depth of nesting: `None` where
/// the type nests too deep, its size (console's, for the bits with or without their metadata)
/// is not the number of bits, or a part of it cannot be read.
pub open spec fn spec_decode(
    from_bits: bool,
    bits: Seq<bool>,
    t: PlaintextTypeView,
    table: StructTableView,
    depth: nat,
) -> Option<PlaintextValueView>
    decreases 2 * (depth_limit() + 1 - depth) + 1, 1int,
{
    if depth > depth_limit() {
        None
    } else {
        match type_size(t, !from_bits, table) {
            None => None,
            Some(size) => if bits.len() != size {
                None
            } else {
                match t {
                    PlaintextTypeView::Literal(l) => spec_decode_literal(from_bits, bits, l),
                    PlaintextTypeView::Struct(n) => spec_decode_struct(
                        from_bits,
                        bits,
                        local_text(table.local, n),
                        table,
                        depth,
                    ),
                    PlaintextTypeView::ExternalStruct(p, n) => spec_decode_struct(
                        from_bits,
                        bits,
                        external_text(table.external, p, n),
                        table,
                        depth,
                    ),
                    PlaintextTypeView::Array(e, len) => spec_decode_array(
                        from_bits,
                        bits,
                        *e,
                        len,
                        table,
                        depth,
                    ),
                }
            },
        }
    }
}

/// The struct of the printed definition that the bits give. With `from_bits` the bits begin
/// with the struct prefix and the 8-bit number of members; then come the members, in order. No
/// two members may have the same name.
pub open spec fn spec_decode_struct(
    from_bits: bool,
    bits: Seq<bool>,
    text: Seq<char>,
    table: StructTableView,
    depth: nat,
) -> Option<PlaintextValueView>
    decreases 2 * (depth_limit() + 1 - depth) + 1, 0int,
{
    if depth > depth_limit() {
        None
    } else {
        match console_struct_members(text) {
            None => None,
            Some(ms) => {
                let start: Option<nat> = if from_bits {
                    if bits_at(bits, 0, 2) == Some(struct_prefix()) && number_at(bits, 2, 8) == Some(ms.len()) {
                        Some(10)
                    } else {
                        None
                    }
                } else {
                    Some(0)
                };
                match start {
                    None => None,
                    Some(p) => match spec_decode_members(from_bits, bits, ms, 0, p, table, depth) {
                        None => None,
                        Some(values) => if distinct_names(member_names(ms)) {
                            Some(PlaintextValueView::Struct(member_names(ms), values))
                        } else {
                            None
                        },
                    },
                }
            },
        }
    }
}

/// Where the value of the member with the name begins, after its metadata from position `pos`
/// on: the 8-bit size of the name (console's size of the name), the name's bits (which console
/// reads back as the name) and the 16-bit size of the value.
pub open spec fn member_value_at(bits: Seq<bool>, pos: nat, name: Seq<char>, size: nat) -> Option<nat> {
    match number_at(bits, pos, 8) {
        None => None,
        Some(name_size) => match (console_identifier_size(name), bits_at(bits, pos + 8, name_size)) {
            (Some(s), Some(nb)) => if s as nat == name_size && console_identifier_from_bits(nb) == Some(name)
                && number_at(bits, pos + 8 + name_size, 16) == Some(size) {
                Some(pos + 8 + name_size + 16)
            } else {
                None
            },
            _ => None,
        },
    }
}

/// The values of the members from the `i`-th on, read from position `pos` on. With `from_bits`
/// each member begins with the 8-bit size of its name, the name's bits and the 16-bit size of
/// its value.
pub open spec fn spec_decode_members(
    from_bits: bool,
    bits: Seq<bool>,
    ms: Seq<(Seq<char>, Seq<char>)>,
    i: nat,
    pos: nat,
    table: StructTableView,
    depth: nat,
) -> Option<Seq<PlaintextValueView>>
    decreases 2 * (depth_limit() + 1 - depth), ms.len() - i,
{
    if depth > depth_limit() {
        None
    } else if i >= ms.len() {
        Some(Seq::empty())
    } else {
        let name = ms[i as int].0;
        match full_type(ms[i as int].1) {
            None => None,
            Some(mt) => match type_size(mt, !from_bits, table) {
                None => None,
                Some(size) => {
                    let value_at: Option<nat> = if from_bits {
                        member_value_at(bits, pos, name, size)
                    } else {
                        Some(pos)
                    };
                    match value_at {
                        None => None,
                        Some(p) => match bits_at(bits, p, size) {
                            None => None,
                            Some(vb) => match spec_decode(from_bits, vb, mt, table, depth + 1) {
                                None => None,
                                Some(v) => match spec_decode_members(
                                    from_bits,
                                    bits,
                                    ms,
                                    i + 1,
                                    p + size,
                                    table,
                                    depth,
                                ) {
                                    None => None,
                                    Some(rest) => Some(seq![v] + rest),
                                },
                            },
                        },
                    }
                },
            },
        }
    }
}

/// The array of `len` elements of the type that the bits give. With `from_bits` the bits begin
/// with the array prefix and the 32-bit length.
pub open spec fn spec_decode_array(
    from_bits: bool,
    bits: Seq<bool>,
    element: PlaintextTypeView,
    len: u32,
    table: StructTableView,
    depth: nat,
) -> Option<PlaintextValueView>
    decreases 2 * (depth_limit() + 1 - depth) + 1, 0int,
{
    if depth > depth_limit() {
        None
    } else {
        let start: Option<nat> = if from_bits {
            if bits_at(bits, 0, 2) == Some(array_prefix()) && number_at(bits, 2, 32) == Some(len as nat) {
                Some(34)
            } else {
                None
            }
        } else {
            Some(0)
        };
        match start {
            None => None,
            Some(p) => match type_size(element, !from_bits, table) {
                None => None,
                Some(size) => match spec_decode_elements(
                    from_bits,
                    bits,
                    element,
                    size,
                    len as nat,
                    p,
                    table,
                    depth,
                ) {
                    None => None,
                    Some(values) => Some(PlaintextValueView::Array(values)),
                },
            },
        }
    }
}

/// The next `count` elements, read from position `pos` on, each of `size` bits. With
/// `from_bits` each element begins with its 16-bit size.
pub open spec fn spec_decode_elements(
    from_bits: bool,
    bits: Seq<bool>,
    element: PlaintextTypeView,
    size: nat,
    count: nat,
    pos: nat,
    table: StructTableView,
    depth: nat,
) -> Option<Seq<PlaintextValueView>>
    decreases 2 * (depth_limit() + 1 - depth), count,
{
    if depth > depth_limit() {
        None
    } else if count == 0 {
        Some(Seq::empty())
    } else {
        let value_at: Option<nat> = if from_bits {
            if number_at(bits, pos, 16) == Some(size) {
                Some(pos + 16)
            } else {
                None
            }
        } else {
            Some(pos)
        };
        match value_at {
            None => None,
            Some(p) => match bits_at(bits, p, size) {
                None => None,
                Some(vb) => match spec_decode(from_bits, vb, element, table, depth + 1) {
                    None => None,
                    Some(v) => match spec_decode_elements(
                        from_bits,
                        bits,
                        element,
                        size,
                        (count - 1) as nat,
                        p + size,
                        table,
                        depth,
                    ) {
                        None => None,
                        Some(rest) => Some(seq![v] + rest),
                    },
                },
            },
        }
    }
}

/// What `deserialize.bits` (or `deserialize.bits.raw`) reads from the bits as a plaintext of the
/// type.
pub open spec fn spec_deserialize(
    variant: DeserializeVariant,
    bits: Seq<bool>,
    t: PlaintextTypeView,
    table: StructTableView,
) -> Option<PlaintextValueView> {
    spec_decode(variant == DeserializeVariant::FromBits, bits, t, table, 0)
}

/// The view of an optional value.
pub open spec fn opt_value_view(r: Option<PlaintextValue>) -> Option<PlaintextValueView> {
    match r {
        Some(v) => Some(v@),
        None => None,
    }
}

/// The views of optional values.
pub open spec fn opt_values_view(r: Option<Vec<PlaintextValue>>) -> Option<Seq<PlaintextValueView>> {
    match r {
        Some(v) => Some(values_view(v@)),
        None => None,
    }
}

/// The names and printed types of the members, as texts.
pub open spec fn members_view(ms: Seq<(String, String)>) -> Seq<(Seq<char>, Seq<char>)> {
    ms.map_values(|x: (String, String)| (x.0@, x.1@))
}

proof fn lemma_array_view(v: Vec<PlaintextValue>)
    ensures
        PlaintextValue::Array(v)@ == PlaintextValueView::Array(values_view(v@)),
{
    let a = PlaintextValue::Array(v)@;
    assert(a->Array_0 =~= values_view(v@));
}

proof fn lemma_struct_view(n: Vec<Identifier>, v: Vec<PlaintextValue>)
    ensures
        PlaintextValue::Struct(n, v)@ == PlaintextValueView::Struct(
            n@.map_values(|x: Identifier| x@),
            values_view(v@),
        ),
{
    let a = PlaintextValue::Struct(n, v)@;
    assert(a->Struct_1 =~= values_view(v@));
}

/// Returns `true` if the bits begin with `a` and then `b`.
fn prefix_is(bits: &[bool], a: bool, b: bool) -> (r: bool)
    ensures
        r == (bits_at(bits@, 0, 2) == Some(seq![a, b])),
{
    if bits.len() < 2 {
        return false;
    }
    let r = bits[0] == a && bits[1] == b;
    proof {
        let s = bits@.subrange(0, 2);
        if r {
            assert(s =~= seq![a, b]);
        } else if s == seq![a, b] {
            assert(s[0] == a && s[1] == b);
        }
    }
    r
}

fn decode_literal(from_bits: bool, bits: &[bool], l: LiteralType) -> (r: Option<PlaintextValue>)
    ensures
        opt_value_view(r) == spec_decode_literal(from_bits, bits@, l),
{
    let id = l.type_id();
    let size = match literal_size_in_bits(id) {
        Some(s) => s,
        None => return None,
    };
    let mut p: usize = 0;
    if from_bits {
        if !prefix_is(bits, false, false) {
            return None;
        }
        let number = read_number(bits, 2, 8);
        let v = match number {
            Some(v) => v,
            None => return None,
        };
        if v != id as u64 {
            return None;
        }
        let number = read_number(bits, 10, 16);
        let v = match number {
            Some(v) => v,
            None => return None,
        };
        if v != size as u64 {
            return None;
        }
        p = 26;
    }
    if size as usize > bits.len() - p {
        return None;
    }
    match literal_from_bits(id, &bits[p..p + size as usize]) {
        Some(text) => Some(PlaintextValue::Literal(text)),
        None => None,
    }
}

fn decode(from_bits: bool, bits: &[bool], t: &PlaintextType, table: &StructTable, depth: usize) -> (r:
    Option<PlaintextValue>)
    requires
        depth <= depth_limit() + 1,
    ensures
        opt_value_view(r) == spec_decode(from_bits, bits@, t@, table@, depth as nat),
    decreases 2 * (depth_limit() + 1 - depth) + 1, 1int,
{
    let limits = data_limits();
    if depth > limits.max_data_depth {
        return None;
    }
    let size = match size_of_type(t, !from_bits, table) {
        Some(s) => s,
        None => return None,
    };
    if bits.len() != size {
        return None;
    }
    match t {
        PlaintextType::Literal(l) => decode_literal(from_bits, bits, *l),
        PlaintextType::Struct(n) => decode_struct(from_bits, bits, table.local_text(n.name.as_str()), table, depth),
        PlaintextType::ExternalStruct(p, n) => decode_struct(
            from_bits,
            bits,
            table.external_text(p.name.as_str(), p.network.as_str(), n.name.as_str()),
            table,
            depth,
        ),
        PlaintextType::Array(e, len) => decode_array(from_bits, bits, e, *len, table, depth),
    }
}

/// Returns `true` if no two members have the same name.
fn names_distinct(ms: &Vec<(String, String)>) -> (r: bool)
    ensures
        r == distinct_names(member_names(members_view(ms@))),
{
    let ghost names = member_names(members_view(ms@));
    let mut i: usize = 0;
    while i < ms.len()
        invariant
            i <= ms@.len(),
            names == member_names(members_view(ms@)),
            names.len() == ms@.len(),
            forall|a: int, b: int| 0 <= a < b < names.len() && a < i ==> names[a] != names[b],
        decreases ms.len() - i,
    {
        let mut j: usize = i + 1;
        while j < ms.len()
            invariant
                i < ms@.len(),
                i < j <= ms@.len(),
                names == member_names(members_view(ms@)),
                names.len() == ms@.len(),
                forall|a: int, b: int| 0 <= a < b < names.len() && a < i ==> names[a] != names[b],
                forall|b: int| i < b < j ==> names[i as int] != names[b],
            decreases ms.len() - j,
        {
            assert(names[i as int] == ms@[i as int].0@ && names[j as int] == ms@[j as int].0@);
            if crate::text::same_text(ms[i].0.as_str(), ms[j].0.as_str()) {
                return false;
            }
            j = j + 1;
        }
        i = i + 1;
    }
    true
}

/// The names of the members, as identifiers.
fn names_of(ms: &Vec<(String, String)>) -> (r: Vec<Identifier>)
    ensures
        r@.map_values(|x: Identifier| x@) == member_names(members_view(ms@)),
{
    let mut r: Vec<Identifier> = Vec::new();
    let mut i: usize = 0;
    while i < ms.len()
        invariant
            i <= ms@.len(),
            r@.map_values(|x: Identifier| x@) == member_names(members_view(ms@)).subrange(0, i as int),
        decreases ms.len() - i,
    {
        let ghost before = r@;
        let name = ms[i].0.clone();
        proof {
            assert(member_names(members_view(ms@))[i as int] == name@);
        }
        r.push(Identifier { name });
        proof {
            assert(r@ == before.push(Identifier { name: name }));
            assert(r@.map_values(|x: Identifier| x@) =~= before.map_values(|x: Identifier| x@).push(name@));
            assert(member_names(members_view(ms@)).subrange(0, i + 1) =~= member_names(members_view(ms@)).subrange(
                0,
                i as int,
            ).push(name@));
        }
        i = i + 1;
    }
    assert(member_names(members_view(ms@)).subrange(0, i as int) =~= member_names(members_view(ms@)));
    r
}

fn decode_struct(from_bits: bool, bits: &[bool], text: &str, table: &StructTable, depth: usize) -> (r: Option<
    PlaintextValue,
>)
    requires
        depth <= depth_limit(),
    ensures
        opt_value_view(r) == spec_decode_struct(from_bits, bits@, text@, table@, depth as nat),
    decreases 2 * (depth_limit() + 1 - depth) + 1, 0int,
{
    let ms = match struct_members(text) {
        Some(m) => m,
        None => return None,
    };
    let mut p: usize = 0;
    if from_bits {
        if !prefix_is(bits, false, true) {
            return None;
        }
        let number = read_number(bits, 2, 8);
        let v = match number {
            Some(v) => v,
            None => return None,
        };
        if v != ms.len() as u64 {
            return None;
        }
        p = 10;
    }
    let values = match decode_members(from_bits, bits, &ms, 0, p, table, depth) {
        Some(v) => v,
        None => return None,
    };
    if !names_distinct(&ms) {
        return None;
    }
    let names = names_of(&ms);
    proof {
        lemma_struct_view(names, values);
    }
    Some(PlaintextValue::Struct(names, values))
}

fn decode_members(
    from_bits: bool,
    bits: &[bool],
    ms: &Vec<(String, String)>,
    i: usize,
    pos: usize,
    table: &StructTable,
    depth: usize,
) -> (r: Option<Vec<PlaintextValue>>)
    requires
        depth <= depth_limit(),
        i <= ms@.len(),
        pos <= bits@.len(),
    ensures
        opt_values_view(r) == spec_decode_members(
            from_bits,
            bits@,
            members_view(ms@),
            i as nat,
            pos as nat,
            table@,
            depth as nat,
        ),
    decreases 2 * (depth_limit() + 1 - depth), ms@.len() - i,
{
    if i >= ms.len() {
        let v: Vec<PlaintextValue> = Vec::new();
        assert(values_view(v@) =~= Seq::<PlaintextValueView>::empty());
        return Some(v);
    }
    let n_bits = bits.len();
    let name = &ms[i].0;
    let mt = match PlaintextType::from_str(ms[i].1.as_str()) {
        Some(t) => t,
        None => return None,
    };
    let size = match size_of_type(&mt, !from_bits, table) {
        Some(s) => s,
        None => return None,
    };
    let mut p: usize = pos;
    if from_bits {
        let number = read_number(bits, pos, 8);
        let name_size = match number {
            Some(v) => v,
            None => return None,
        };
        let s = match identifier_size_in_bits(name.as_str()) {
            Some(s) => s,
            None => return None,
        };
        if s as u64 != name_size {
            return None;
        }
        let at = pos + 8;
        if name_size as usize > bits.len() - at {
            return None;
        }
        let id = match identifier_from_bits(&bits[at..at + name_size as usize]) {
            Some(t) => t,
            None => return None,
        };
        if !crate::text::same_text(id.as_str(), name.as_str()) {
            return None;
        }
        let q = at + name_size as usize;
        let number = read_number(bits, q, 16);
        let v = match number {
            Some(v) => v,
            None => return None,
        };
        if v != size as u64 {
            return None;
        }
        p = q + 16;
    }
    if size > bits.len() - p {
        return None;
    }
    let v = match decode(from_bits, &bits[p..p + size], &mt, table, depth + 1) {
        Some(v) => v,
        None => return None,
    };
    let mut rest = match decode_members(from_bits, bits, ms, i + 1, p + size, table, depth) {
        Some(r) => r,
        None => return None,
    };
    let ghost before = rest@;
    rest.insert(0, v);
    assert(values_view(rest@) =~= seq![v@] + values_view(before));
    Some(rest)
}

fn decode_array(
    from_bits: bool,
    bits: &[bool],
    element: &PlaintextType,
    len: u32,
    table: &StructTable,
    depth: usize,
) -> (r: Option<PlaintextValue>)
    requires
        depth <= depth_limit(),
    ensures
        opt_value_view(r) == spec_decode_array(from_bits, bits@, element@, len, table@, depth as nat),
    decreases 2 * (depth_limit() + 1 - depth) + 1, 0int,
{
    let mut p: usize = 0;
    if from_bits {
        if !prefix_is(bits, true, false) {
            return None;
        }
        let number = read_number(bits, 2, 32);
        let v = match number {
            Some(v) => v,
            None => return None,
        };
        if v != len as u64 {
            return None;
        }
        p = 34;
    }
    let size = match size_of_type(element, !from_bits, table) {
        Some(s) => s,
        None => return None,
    };
    let values = match decode_elements(from_bits, bits, element, size, len as usize, p, table, depth) {
        Some(v) => v,
        None => return None,
    };
    proof {
        lemma_array_view(values);
    }
    Some(PlaintextValue::Array(values))
}

fn decode_elements(
    from_bits: bool,
    bits: &[bool],
    element: &PlaintextType,
    size: usize,
    count: usize,
    pos: usize,
    table: &StructTable,
    depth: usize,
) -> (r: Option<Vec<PlaintextValue>>)
    requires
        depth <= depth_limit(),
        pos <= bits@.len(),
    ensures
        opt_values_view(r) == spec_decode_elements(
            from_bits,
            bits@,
            element@,
            size as nat,
            count as nat,
            pos as nat,
            table@,
            depth as nat,
        ),
    decreases 2 * (depth_limit() + 1 - depth), count,
{
    if count == 0 {
        let v: Vec<PlaintextValue> = Vec::new();
        assert(values_view(v@) =~= Seq::<PlaintextValueView>::empty());
        return Some(v);
    }
    let n_bits = bits.len();
    let mut p: usize = pos;
    if from_bits {
        let number = read_number(bits, pos, 16);
        let v = match number {
            Some(v) => v,
            None => return None,
        };
        if v != size as u64 {
            return None;
        }
        p = pos + 16;
    }
    if size > bits.len() - p {
        return None;
    }
    let v = match decode(from_bits, &bits[p..p + size], element, table, depth + 1) {
        Some(v) => v,
        None => return None,
    };
    let mut rest = match decode_elements(from_bits, bits, element, size, count - 1, p + size, table, depth) {
        Some(r) => r,
        None => return None,
    };
    let ghost before = rest@;
    rest.insert(0, v);
    assert(values_view(rest@) =~= seq![v@] + values_view(before));
    Some(rest)
}

/// Reads a plaintext of the type from the bits, as `deserialize.bits` (with the metadata of
/// each part) or `deserialize.bits.raw` (the bare values) does: the bits must be exactly as
/// many as console's size of the type, structs are looked up in the table, and each literal and
/// member name is read by console from its own bits.
pub fn evaluate_deserialize(
    variant: DeserializeVariant,
    bits: &[bool],
    destination_type: &PlaintextType,
    structs: &StructTable,
) -> (r: Option<PlaintextValue>)
    ensures
        opt_value_view(r) == spec_deserialize(variant, bits@, destination_type@, structs@),
{
    let from_bits = match variant {
        DeserializeVariant::FromBits => true,
        DeserializeVariant::FromBitsRaw => false,
    };
    decode(from_bits, bits, destination_type, structs, 0)
}

/// The name at the position, or the empty text past the end of the names.
pub open spec fn name_at(names: Seq<Seq<char>>, i: int) -> Seq<char> {
    if 0 <= i < names.len() {
        names[i]
    } else {
        Seq::empty()
    }
}

/// The value written as console reads a plaintext: a literal as it is printed, a struct as
/// `{ name: value, ... }`, an array as `[value, ...]`.
pub open spec fn value_text(v: PlaintextValueView) -> Seq<char>
    decreases v,
{
    match v {
        PlaintextValueView::Literal(t) => t,
        PlaintextValueView::Struct(ns, vs) => "{ "@ + members_text(ns, vs) + " }"@,
        PlaintextValueView::Array(vs) => "["@ + elements_text(vs) + "]"@,
    }
}

/// The members `name: value`, separated by `, `.
pub open spec fn members_text(ns: Seq<Seq<char>>, vs: Seq<PlaintextValueView>) -> Seq<char>
    decreases vs,
{
    if vs.len() == 0 {
        Seq::empty()
    } else {
        let k = vs.len() - 1;
        members_text(ns, vs.subrange(0, k)) + (if k > 0 {
            ", "@
        } else {
            Seq::empty()
        }) + name_at(ns, k) + ": "@ + value_text(vs[k])
    }
}

/// The elements, separated by `, `.
pub open spec fn elements_text(vs: Seq<PlaintextValueView>) -> Seq<char>
    decreases vs,
{
    if vs.len() == 0 {
        Seq::empty()
    } else {
        let k = vs.len() - 1;
        elements_text(vs.subrange(0, k)) + (if k > 0 {
            ", "@
        } else {
            Seq::empty()
        }) + value_text(vs[k])
    }
}

/// The views of identifiers.
pub open spec fn names_view(ns: Seq<Identifier>) -> Seq<Seq<char>> {
    ns.map_values(|n: Identifier| n@)
}

pub(crate) proof fn lemma_value_view(v: &PlaintextValue)
    ensures
        match v {
            PlaintextValue::Literal(t) => v@ == PlaintextValueView::Literal(t@),
            PlaintextValue::Struct(ns, vs) => v@ == PlaintextValueView::Struct(names_view(ns@), values_view(vs@)),
            PlaintextValue::Array(vs) => v@ == PlaintextValueView::Array(values_view(vs@)),
        },
{
    match v {
        PlaintextValue::Literal(_) => {},
        PlaintextValue::Struct(ns, vs) => {
            assert(v@->Struct_1 =~= values_view(vs@));
        },
        PlaintextValue::Array(vs) => {
            assert(v@->Array_0 =~= values_view(vs@));
        },
    }
}

/// Appends the value, written as console reads a plaintext, to `out`.
fn write_value(out: &mut Vec<char>, v: &PlaintextValue)
    ensures
        final(out)@ == old(out)@ + value_text(v@),
    decreases v,
{
    proof {
        lemma_value_view(v);
    }
    let ghost start = out@;
    match v {
        PlaintextValue::Literal(t) => {
            push_all(out, &chars_of(t.as_str()));
        },
        PlaintextValue::Struct(ns, vs) => {
            let ghost names = names_view(ns@);
            let ghost values = values_view(vs@);
            push_all(out, &chars_of("{ "));
            let mut i: usize = 0;
            while i < vs.len()
                invariant
                    i <= vs@.len(),
                    names == names_view(ns@),
                    values == values_view(vs@),
                    out@ == start + "{ "@ + members_text(names, values.subrange(0, i as int)),
                    v is Struct,
                    v->Struct_1 == *vs,
                decreases vs.len() - i,
            {
                let ghost before = out@;
                if i > 0 {
                    push_all(out, &chars_of(", "));
                }
                if i < ns.len() {
                    push_all(out, &chars_of(ns[i].name.as_str()));
                }
                push_all(out, &chars_of(": "));
                proof {
                    assert(decreases_to!(*v => v->Struct_1));
                    assert(v->Struct_1 == *vs);
                    assert(decreases_to!(*vs => vs@));
                    assert(decreases_to!(vs@ => vs@[i as int]));
                    assert(decreases_to!(v => vs@[i as int]));
                }
                write_value(out, &vs[i]);
                proof {
                    let s = values.subrange(0, i + 1);
                    assert(s.subrange(0, i as int) =~= values.subrange(0, i as int));
                    assert(s[i as int] == vs@[i as int]@);
                    assert(out@ =~= before + (if i > 0 {
                        ", "@
                    } else {
                        Seq::empty()
                    }) + name_at(names, i as int) + ": "@ + value_text(vs@[i as int]@));
                }
                i = i + 1;
            }
            push_all(out, &chars_of(" }"));
            assert(values.subrange(0, i as int) =~= values);
        },
        PlaintextValue::Array(vs) => {
            let ghost values = values_view(vs@);
            push_all(out, &chars_of("["));
            let mut i: usize = 0;
            while i < vs.len()
                invariant
                    i <= vs@.len(),
                    values == values_view(vs@),
                    out@ == start + "["@ + elements_text(values.subrange(0, i as int)),
                    v is Array,
                    v->Array_0 == *vs,
                decreases vs.len() - i,
            {
                let ghost before = out@;
                if i > 0 {
                    push_all(out, &chars_of(", "));
                }
                proof {
                    assert(decreases_to!(*v => v->Array_0));
                    assert(v->Array_0 == *vs);
                    assert(decreases_to!(*vs => vs@));
                    assert(decreases_to!(vs@ => vs@[i as int]));
                    assert(decreases_to!(v => vs@[i as int]));
                }
                write_value(out, &vs[i]);
                proof {
                    let s = values.subrange(0, i + 1);
                    assert(s.subrange(0, i as int) =~= values.subrange(0, i as int));
                    assert(s[i as int] == vs@[i as int]@);
                    assert(out@ =~= before + (if i > 0 {
                        ", "@
                    } else {
                        Seq::empty()
                    }) + value_text(vs@[i as int]@));
                }
                i = i + 1;
            }
            push_all(out, &chars_of("]"));
            assert(values.subrange(0, i as int) =~= values);
        },
    }
}

impl PlaintextValue {
    /// Returns the value written as console reads a plaintext.
    pub fn to_string(&self) -> (r: String)
        ensures
            r@ == value_text(self@),
    {
        let mut out: Vec<char> = Vec::new();
        write_value(&mut out, self);
        assert(out@ =~= value_text(self@));
        string_of(&out)
    }
}

/// The printed boolean literal.
pub open spec fn bit_text(b: bool) -> Seq<char> {
    if b {
        "true"@
    } else {
        "false"@
    }
}

/// The array of boolean literals, one for each bit, as console's `Plaintext::from_bit_array`
/// makes it.
pub open spec fn bit_array_value(bits: Seq<bool>) -> PlaintextValueView {
    PlaintextValueView::Array(bits.map_values(|b: bool| PlaintextValueView::Literal(bit_text(b))))
}

/// What `serialize.bits` (`serialize.bits.raw` where `raw`) makes of the value for a destination
/// of the type: the value's bits, as console gives them, as an array of booleans; `None` unless
/// the type is an array of booleans whose length is the number of bits.
pub open spec fn spec_serialize_bits(raw: bool, v: PlaintextValueView, t: PlaintextTypeView) -> Option<
    PlaintextValueView,
> {
    if !is_bit_array(t) {
        None
    } else {
        match value_bits(value_text(v), raw) {
            None => None,
            Some(bits) => if bits.len() == array_length(t) {
                Some(bit_array_value(bits))
            } else {
                None
            },
        }
    }
}

/// What the serialize variant makes of the value for a destination of the type.
pub open spec fn spec_serialize(variant: SerializeVariant, v: PlaintextValueView, t: PlaintextTypeView) -> Option<
    PlaintextValueView,
> {
    spec_serialize_bits(variant == SerializeVariant::ToBitsRaw, v, t)
}

/// The bits of a value that is an array of boolean literals.
pub open spec fn spec_as_bit_array(v: PlaintextValueView) -> Option<Seq<bool>> {
    match v {
        PlaintextValueView::Array(vs) => if forall|i: int|
            0 <= i < vs.len() ==> #[trigger] vs[i] == PlaintextValueView::Literal("true"@) || vs[i]
                == PlaintextValueView::Literal("false"@) {
            Some(Seq::new(vs.len(), |i: int| vs[i] == PlaintextValueView::Literal("true"@)))
        } else {
            None
        },
        _ => None,
    }
}

/// Returns the array of boolean literals for the bits, as console's `Plaintext::from_bit_array`
/// does: `None` unless there are `length` bits.
pub fn from_bit_array(bits: &[bool], length: u32) -> (r: Option<PlaintextValue>)
    ensures
        opt_value_view(r) == if bits@.len() == length {
            Some(bit_array_value(bits@))
        } else {
            None
        },
{
    if bits.len() != length as usize {
        return None;
    }
    let mut vs: Vec<PlaintextValue> = Vec::new();
    let mut i: usize = 0;
    while i < bits.len()
        invariant
            i <= bits@.len(),
            values_view(vs@) == bits@.subrange(0, i as int).map_values(
                |b: bool| PlaintextValueView::Literal(bit_text(b)),
            ),
        decreases bits.len() - i,
    {
        let text = if bits[i] {
            string_of(&chars_of("true"))
        } else {
            string_of(&chars_of("false"))
        };
        let ghost before = vs@;
        vs.push(PlaintextValue::Literal(text));
        assert(values_view(vs@) =~= values_view(before).push(PlaintextValueView::Literal(bit_text(bits@[i as int]))));
        i = i + 1;
        assert(bits@.subrange(0, i as int).map_values(|b: bool| PlaintextValueView::Literal(bit_text(b)))
            =~= bits@.subrange(0, i - 1).map_values(|b: bool| PlaintextValueView::Literal(bit_text(b))).push(
            PlaintextValueView::Literal(bit_text(bits@[i - 1])),
        ));
    }
    assert(bits@.subrange(0, i as int) =~= bits@);
    proof {
        lemma_array_view(vs);
    }
    Some(PlaintextValue::Array(vs))
}

/// Turns the value into bits, as `serialize.bits` (with the metadata of each part) or
/// `serialize.bits.raw` (the bare values) does: console gives the bits of the value, and they
/// become an array of booleans, which must have the length of the destination array of
/// booleans.
pub fn evaluate_serialize(variant: SerializeVariant, input: &PlaintextValue, destination_type: &PlaintextType) -> (r:
    Option<PlaintextValue>)
    requires
        variant == SerializeVariant::ToBits ==> value_fits(input@),
    ensures
        opt_value_view(r) == spec_serialize(variant, input@, destination_type@),
{
    let raw = match variant {
        SerializeVariant::ToBits => false,
        SerializeVariant::ToBitsRaw => true,
    };
    serialize_bits(raw, input, destination_type)
}

/// Turns the value into bits (without the metadata where `raw`), as an array of booleans of the
/// destination type.
pub fn serialize_bits(raw: bool, input: &PlaintextValue, destination_type: &PlaintextType) -> (r: Option<
    PlaintextValue,
>)
    requires
        !raw ==> value_fits(input@),
    ensures
        opt_value_view(r) == spec_serialize_bits(raw, input@, destination_type@),
{
    if !bit_array(destination_type) {
        return None;
    }
    let bits = match bits_of_value(input, raw) {
        Some(b) => b,
        None => return None,
    };
    from_bit_array(&bits, length_of(destination_type))
}

/// Returns the bits of a value that is an array of boolean literals, as console's
/// `Plaintext::as_bit_array` does.
pub fn as_bit_array(v: &PlaintextValue) -> (r: Option<Vec<bool>>)
    ensures
        spec_as_bit_array(v@) == match r {
            Some(b) => Some(b@),
            None => None::<Seq<bool>>,
        },
{
    proof {
        lemma_value_view(v);
    }
    match v {
        PlaintextValue::Array(vs) => {
            let ghost values = values_view(vs@);
            let t = chars_of("true");
            let f = chars_of("false");
            let mut bits: Vec<bool> = Vec::new();
            let mut i: usize = 0;
            while i < vs.len()
                invariant
                    i <= vs@.len(),
                    values == values_view(vs@),
                    v@ == PlaintextValueView::Array(values),
                    t@ == "true"@,
                    f@ == "false"@,
                    bits@.len() == i,
                    forall|k: int|
                        0 <= k < i ==> (#[trigger] values[k] == PlaintextValueView::Literal("true"@)
                            || values[k] == PlaintextValueView::Literal("false"@)),
                    forall|k: int| 0 <= k < i ==> #[trigger] bits@[k] == (values[k] == PlaintextValueView::Literal("true"@)),
                decreases vs.len() - i,
            {
                assert(values[i as int] == vs@[i as int]@);
                match &vs[i] {
                    PlaintextValue::Literal(text) => {
                        let c = chars_of(text.as_str());
                        if crate::text::same_chars(&c, &t) {
                            bits.push(true);
                        } else if crate::text::same_chars(&c, &f) {
                            bits.push(false);
                        } else {
                            proof {
                                lemma_value_view(&vs[i as int]);
                                assert(values[i as int] == PlaintextValueView::Literal(text@));
                            }
                            return None;
                        }
                        proof {
                            lemma_value_view(&vs[i as int]);
                        }
                    },
                    _ => {
                        proof {
                            lemma_value_view(&vs[i as int]);
                            assert(!(values[i as int] is Literal));
                        }
                        return None;
                    },
                }
                i = i + 1;
            }
            assert(bits@ =~= Seq::new(values.len(), |k: int| values[k] == PlaintextValueView::Literal("true"@)));
            Some(bits)
        },
        _ => None,
    }
}

/// The bytes of the bits, eight at a time, least significant bit first; the last byte takes
/// the bits that are left (`bytes_from_bits_le`).
pub open spec fn bytes_of_bits(bits: Seq<bool>) -> Seq<u8>
    decreases bits.len(),
{
    if bits.len() == 0 {
        Seq::empty()
    } else if bits.len() <= 8 {
        seq![le_value(bits) as u8]
    } else {
        seq![le_value(bits.subrange(0, 8)) as u8] + bytes_of_bits(bits.subrange(8, bits.len() as int))
    }
}

/// Packs the bits into bytes, eight at a time, least significant bit first.
pub fn bytes_from_bits_le(bits: &[bool]) -> (r: Vec<u8>)
    ensures
        r@ == bytes_of_bits(bits@),
{
    let mut out: Vec<u8> = Vec::new();
    let mut pos: usize = 0;
    proof {
        assert(bits@.subrange(0, bits@.len() as int) =~= bits@);
    }
    while pos < bits.len()
        invariant
            pos <= bits@.len(),
            bytes_of_bits(bits@) == out@ + bytes_of_bits(bits@.subrange(pos as int, bits@.len() as int)),
        decreases bits.len() - pos,
    {
        let rest = bits.len() - pos;
        let n: usize = if rest < 8 {
            rest
        } else {
            8
        };
        let v = match read_number(bits, pos, n) {
            Some(v) => v,
            None => {
                return out;
            },
        };
        proof {
            lemma_two_to_monotone(n as nat, 8);
            assert(two_to(8) == 256) by {
                reveal_with_fuel(two_to, 9);
            }
            let s = bits@.subrange(pos as int, bits@.len() as int);
            if s.len() <= 8 {
                assert(s =~= bits@.subrange(pos as int, pos + n));
                assert(bits@.subrange(pos + n, bits@.len() as int).len() == 0);
                assert(bytes_of_bits(bits@.subrange(pos + n, bits@.len() as int)) =~= Seq::<u8>::empty());
            } else {
                assert(s.subrange(0, 8) =~= bits@.subrange(pos as int, pos + n));
                assert(s.subrange(8, s.len() as int) =~= bits@.subrange(pos + n, bits@.len() as int));
            }
        }
        let ghost before = out@;
        out.push(v as u8);
        proof {
            assert(out@ == before + seq![v as u8]);
        }
        pos = pos + n;
    }
    proof {
        assert(bits@.subrange(pos as int, bits@.len() as int).len() == 0);
        assert(bytes_of_bits(bits@.subrange(pos as int, bits@.len() as int)) =~= Seq::<u8>::empty());
        assert(out@ + Seq::<u8>::empty() =~= out@);
    }
    out
}

/// The bytes of a value that is an array of `u8` literals (console's
/// `Plaintext::as_byte_array`).
pub open spec fn spec_as_byte_array(v: PlaintextValueView) -> Option<Seq<u8>> {
    match v {
        PlaintextValueView::Array(vs) => if forall|i: int|
            0 <= i < vs.len() ==> (#[trigger] vs[i] is Literal && console_literal_u8(vs[i]->Literal_0) is Some) {
            Some(Seq::new(vs.len(), |i: int| console_literal_u8(vs[i]->Literal_0)->0))
        } else {
            None
        },
        _ => None,
    }
}

/// The field elements, as text, of a value that is an array of field literals (console's
/// `Plaintext::as_field_array`).
pub open spec fn spec_as_field_array(v: PlaintextValueView) -> Option<Seq<Seq<char>>> {
    match v {
        PlaintextValueView::Array(vs) => if forall|i: int|
            0 <= i < vs.len() ==> (#[trigger] vs[i] is Literal && console_literal_is_field(vs[i]->Literal_0)) {
            Some(Seq::new(vs.len(), |i: int| vs[i]->Literal_0))
        } else {
            None
        },
        _ => None,
    }
}

/// Returns the bytes of a value that is an array of `u8` literals.
pub fn as_byte_array(v: &PlaintextValue) -> (r: Option<Vec<u8>>)
    ensures
        spec_as_byte_array(v@) == match r {
            Some(b) => Some(b@),
            None => None::<Seq<u8>>,
        },
{
    proof {
        lemma_value_view(v);
    }
    match v {
        PlaintextValue::Array(vs) => {
            let ghost values = values_view(vs@);
            let mut out: Vec<u8> = Vec::new();
            let mut i: usize = 0;
            while i < vs.len()
                invariant
                    i <= vs@.len(),
                    values == values_view(vs@),
                    v@ == PlaintextValueView::Array(values),
                    out@.len() == i,
                    forall|k: int|
                        0 <= k < i ==> (#[trigger] values[k] is Literal && console_literal_u8(values[k]->Literal_0)
                            == Some(out@[k])),
                decreases vs.len() - i,
            {
                proof {
                    lemma_value_view(&vs[i as int]);
                }
                match &vs[i] {
                    PlaintextValue::Literal(t) => match literal_u8(t.as_str()) {
                        Some(b) => out.push(b),
                        None => {
                            assert(values[i as int] == PlaintextValueView::Literal(t@));
                            return None;
                        },
                    },
                    _ => {
                        assert(!(values[i as int] is Literal));
                        return None;
                    },
                }
                i = i + 1;
            }
            assert(out@ =~= Seq::new(values.len(), |k: int| console_literal_u8(values[k]->Literal_0)->0));
            Some(out)
        },
        _ => None,
    }
}

/// Returns the field elements, as text, of a value that is an array of field literals.
pub fn as_field_array(v: &PlaintextValue) -> (r: Option<Vec<String>>)
    ensures
        spec_as_field_array(v@) == match r {
            Some(f) => Some(texts_view(f@)),
            None => None::<Seq<Seq<char>>>,
        },
{
    proof {
        lemma_value_view(v);
    }
    match v {
        PlaintextValue::Array(vs) => {
            let ghost values = values_view(vs@);
            let mut out: Vec<String> = Vec::new();
            let mut i: usize = 0;
            while i < vs.len()
                invariant
                    i <= vs@.len(),
                    values == values_view(vs@),
                    v@ == PlaintextValueView::Array(values),
                    out@.len() == i,
                    forall|k: int|
                        0 <= k < i ==> (#[trigger] values[k] is Literal && console_literal_is_field(values[k]->Literal_0)
                            && out@[k]@ == values[k]->Literal_0),
                decreases vs.len() - i,
            {
                proof {
                    lemma_value_view(&vs[i as int]);
                }
                match &vs[i] {
                    PlaintextValue::Literal(t) => if literal_is_field(t.as_str()) {
                        out.push(t.clone());
                    } else {
                        assert(values[i as int] == PlaintextValueView::Literal(t@));
                        return None;
                    },
                    _ => {
                        assert(!(values[i as int] is Literal));
                        return None;
                    },
                }
                i = i + 1;
            }
            assert(texts_view(out@) =~= Seq::new(values.len(), |k: int| values[k]->Literal_0));
            Some(out)
        },
        _ => None,
    }
}

} // verus!
