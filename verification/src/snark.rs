//! The `snark.verify` instructions: check a Varuna proof (or a batch of them) against
//! verifying keys and public inputs, as in `snark.verify r0 r1 r2 r3 into r4`.
use vstd::prelude::*;

use crate::call_dynamic::operands_view;
use crate::instruction::{into_string, into_text, parse_into, spec_parse_into};
use crate::op_bytes::{
    normal_operands, normal_register, read_ops_register, spec_ops_register_bytes, spec_read_ops_register,
    write_ops_register,
};
use crate::operand::{tail, Operand, OperandView, Register, RegisterView};
use crate::syntax::tail_of;
use crate::text::{chars_of, string_of};
use crate::types::{boolean_type, snark_verify_error, snark_verify_output_types, register_types_view, RegisterType, TypeError};
use crate::console::{
    batch_view, console_field_is_zero, console_literal_u8, console_snark_key_inputs, console_varuna_verify,
    console_varuna_verify_batch, field_is_zero, literal_u8, snark_key_inputs, texts_view, varuna_verify,
    varuna_verify_batch,
};
use crate::plaintext_bits::{
    as_byte_array, as_field_array, bit_text, lemma_value_view, spec_as_byte_array, spec_as_field_array, values_view,
    PlaintextValue, PlaintextValueView,
};
use crate::variants::SnarkVerifyVariant;

verus! {

/// The mathematical value of a `snark.verify` instruction.
pub ghost struct SnarkVerifyView {
    pub variant: SnarkVerifyVariant,
    pub operands: Seq<OperandView>,
    pub destination: RegisterView,
}

/// A `snark.verify` instruction: its operands are the verifying key(s), the varuna version, the
/// public inputs and the proof.
#[derive(Debug, PartialEq, Eq)]
pub struct SnarkVerification {
    variant: SnarkVerifyVariant,
    operands: Vec<Operand>,
    destination: Register,
}

impl View for SnarkVerification {
    type V = SnarkVerifyView;

    closed spec fn view(&self) -> SnarkVerifyView {
        SnarkVerifyView { variant: self.variant, operands: operands_view(self.operands@), destination: self.destination@ }
    }
}

impl SnarkVerification {
    /// The instruction has four operands.
    pub closed spec fn wf(&self) -> bool {
        self.operands@.len() == 4
    }

    /// Makes a `snark.verify` instruction of the variant: refused unless it has four operands.
    pub fn new(variant: SnarkVerifyVariant, operands: Vec<Operand>, destination: Register) -> (r: Result<
        SnarkVerification,
        TypeError,
    >)
        ensures
            operands@.len() != 4 ==> r == Err::<SnarkVerification, TypeError>(TypeError::OperandCount),
            operands@.len() == 4 ==> (r matches Ok(e) && e.wf() && e@ == (SnarkVerifyView {
                variant,
                operands: operands_view(operands@),
                destination: destination@,
            })),
    {
        if operands.len() != 4 {
            return Err(TypeError::OperandCount);
        }
        Ok(SnarkVerification { variant, operands, destination })
    }

    /// The variant.
    pub fn variant(&self) -> (r: SnarkVerifyVariant)
        ensures
            r == self@.variant,
    {
        self.variant
    }

    /// The operands.
    pub fn operands(&self) -> (r: &Vec<Operand>)
        ensures
            operands_view(r@) == self@.operands,
    {
        &self.operands
    }

    /// The opcode.
    pub fn opcode(&self) -> (r: &'static str)
        ensures
            r@ == self@.variant.spec_opcode(),
    {
        self.variant.opcode()
    }

    /// The destination registers: the one destination.
    pub fn destinations(&self) -> (r: Vec<Register>)
        ensures
            r@.len() == 1,
            r@[0]@ == self@.destination,
    {
        let mut v: Vec<Register> = Vec::new();
        v.push(self.destination.copy());
        v
    }

    /// The destination register.
    pub fn destination(&self) -> (r: &Register)
        ensures
            r@ == self@.destination,
    {
        &self.destination
    }

    /// The instruction names no struct of another program.
    pub fn contains_external_struct(&self) -> (r: bool)
        ensures
            !r,
    {
        false
    }

    /// Returns the output types of the instruction with the input types: one boolean, or why
    /// the inputs are refused.
    pub fn output_types(&self, input_types: &Vec<RegisterType>) -> (r: Result<
        Vec<RegisterType>,
        TypeError,
    >)
        ensures
            match snark_verify_error(self@.variant, register_types_view(input_types@)) {
                Some(e) => r == Err::<Vec<RegisterType>, TypeError>(e),
                None => r matches Ok(v) && register_types_view(v@) == seq![boolean_type()],
            },
    {
        snark_verify_output_types(self.variant, input_types)
    }
}

/// What the `snark.verify` parser of the variant reads from the start of the text: the
/// opcode, four operands, `into` and the destination register, with whitespace between them.
/// The length of the rest and the instruction.
pub open spec fn spec_parse_snark_verify(variant: SnarkVerifyVariant, t: Seq<char>) -> Option<(nat, SnarkVerifyView)> {
    match spec_parse_into(variant.spec_opcode(), 4, t) {
        Some((k, operands, destination)) => Some((k, SnarkVerifyView { variant, operands, destination })),
        None => None,
    }
}

/// The printed instruction.
pub open spec fn snark_verify_text(e: SnarkVerifyView) -> Seq<char> {
    into_text(e.variant.spec_opcode(), e.operands, e.destination)
}

impl SnarkVerification {
    /// Parses a `snark.verify` instruction of the variant from the start of the characters.
    pub fn parse_chars(variant: SnarkVerifyVariant, t: &[char]) -> (r: Option<(usize, SnarkVerification)>)
        ensures
            spec_parse_snark_verify(variant, t@) == match r {
                Some((k, e)) => Some((k as nat, e@)),
                None => None::<(nat, SnarkVerifyView)>,
            },
            r matches Some((k, e)) ==> k <= t@.len() && e.wf(),
    {
        match parse_into(variant.opcode(), 4, t) {
            Some((k, operands, destination)) => Some((k, SnarkVerification { variant, operands, destination })),
            None => None,
        }
    }

    /// Parses a `snark.verify` instruction of the variant from the start of the string: the
    /// rest of the string and the instruction.
    pub fn parse(variant: SnarkVerifyVariant, string: &str) -> (r: Option<(String, SnarkVerification)>)
        ensures
            match spec_parse_snark_verify(variant, string@) {
                Some((k, e)) => r matches Some((rest, x)) && rest@ == tail(string@, k) && x@ == e && x.wf(),
                None => r is None,
            },
    {
        let s = chars_of(string);
        match SnarkVerification::parse_chars(variant, &s) {
            Some((k, e)) => Some((string_of(tail_of(&s, k)), e)),
            None => None,
        }
    }

    /// Parses a `snark.verify` instruction of the variant from the whole string.
    pub fn from_str(variant: SnarkVerifyVariant, string: &str) -> (r: Option<SnarkVerification>)
        ensures
            match spec_parse_snark_verify(variant, string@) {
                Some((k, e)) => if k == 0 {
                    r matches Some(x) && x@ == e
                } else {
                    r is None
                },
                None => r is None,
            },
    {
        let s = chars_of(string);
        match SnarkVerification::parse_chars(variant, &s) {
            Some((k, e)) => if k == 0 {
                Some(e)
            } else {
                None
            },
            None => None,
        }
    }

    /// Returns the printed instruction.
    pub fn to_string(&self) -> (r: String)
        requires
            self.wf(),
        ensures
            r@ == snark_verify_text(self@),
    {
        into_string(self.variant.opcode(), self.operands.as_slice(), &self.destination)
    }
}

/// The bytes of a `snark.verify` instruction: its operands, then its destination.
pub open spec fn spec_snark_verify_bytes(v: SnarkVerifyView) -> Option<Seq<u8>> {
    spec_ops_register_bytes(v.operands, v.destination)
}

/// A `snark.verify` instruction of the variant read from the bytes: the number of bytes left and
/// the instruction.
pub open spec fn spec_read_snark_verify(variant: SnarkVerifyVariant, b: Seq<u8>) -> Option<(nat, SnarkVerifyView)> {
    match spec_read_ops_register(b, 4) {
        Some((k, operands, destination)) => Some((k, SnarkVerifyView { variant, operands, destination })),
        None => None,
    }
}

/// The instruction as console reads back what its operands and destination hold.
pub open spec fn normal_snark_verify(v: SnarkVerifyView) -> SnarkVerifyView {
    SnarkVerifyView {
        variant: v.variant,
        operands: normal_operands(v.operands),
        destination: normal_register(v.destination),
    }
}

impl SnarkVerification {
    /// Writes the instruction as bytes: `None` where console cannot write what an operand or
    /// the destination holds. Reading the bytes back gives the instruction as console reads
    /// back what it holds, whatever follows.
    pub fn write_le(&self) -> (r: Option<Vec<u8>>)
        requires
            self.wf(),
        ensures
            spec_snark_verify_bytes(self@) == match r {
                Some(b) => Some(b@),
                None => None::<Seq<u8>>,
            },
            r matches Some(b) ==> forall|rest: Seq<u8>|
                #[trigger] spec_read_snark_verify(self@.variant, b@ + rest) == Some((rest.len(), normal_snark_verify(self@))),
    {
        let mut out: Vec<u8> = Vec::new();
        if !write_ops_register(&mut out, self.operands.as_slice(), &self.destination) {
            return None;
        }
        assert(out@ =~= spec_snark_verify_bytes(self@)->0);
        Some(out)
    }

    /// Reads a `snark.verify` instruction of the variant from the start of the bytes: the number of
    /// bytes left and the instruction.
    pub fn read_le(variant: SnarkVerifyVariant, b: &[u8]) -> (r: Option<(usize, SnarkVerification)>)
        ensures
            spec_read_snark_verify(variant, b@) == match r {
                Some((k, x)) => Some((k as nat, x@)),
                None => None::<(nat, SnarkVerifyView)>,
            },
            r matches Some((k, x)) ==> k <= b@.len() && x.wf(),
    {
        match read_ops_register(b, 4) {
            Some((k, operands, destination)) => Some((k, SnarkVerification { variant, operands, destination })),
            None => None,
        }
    }
}

/// The inputs beyond the first `n` are zero field elements.
pub open spec fn excess_zero(inputs: Seq<Seq<char>>, n: nat) -> bool {
    forall|k: int| n <= k < inputs.len() ==> console_field_is_zero(#[trigger] inputs[k]) == Some(true)
}

/// The first `n` inputs, where there are at least `n` and the rest are zero; `None` otherwise.
pub open spec fn spec_trimmed(n: nat, inputs: Seq<Seq<char>>) -> Option<Seq<Seq<char>>> {
    if inputs.len() < n {
        None
    } else if excess_zero(inputs, n) {
        Some(inputs.take(n as int))
    } else {
        None
    }
}

/// The byte of a value that is a `u8` literal.
pub open spec fn version_byte(v: PlaintextValueView) -> Option<u8> {
    match v {
        PlaintextValueView::Literal(t) => console_literal_u8(t),
        _ => None,
    }
}

/// The rows of field elements of a value that is an array of arrays of field literals.
pub open spec fn spec_rows(v: PlaintextValueView) -> Option<Seq<Seq<Seq<char>>>> {
    match v {
        PlaintextValueView::Array(vs) => if forall|i: int| 0 <= i < vs.len() ==> #[trigger] spec_as_field_array(vs[i]) is Some {
            Some(Seq::new(vs.len(), |i: int| spec_as_field_array(vs[i])->0))
        } else {
            None
        },
        _ => None,
    }
}

/// The keys of a value that is an array of byte arrays.
pub open spec fn spec_key_arrays(v: PlaintextValueView) -> Option<Seq<Seq<u8>>> {
    match v {
        PlaintextValueView::Array(vs) => if forall|i: int| 0 <= i < vs.len() ==> #[trigger] spec_as_byte_array(vs[i]) is Some {
            Some(Seq::new(vs.len(), |i: int| spec_as_byte_array(vs[i])->0))
        } else {
            None
        },
        _ => None,
    }
}

/// The instances of a batch: a value that is an array, for each key, of arrays of rows of field
/// literals.
pub open spec fn spec_batch_inputs(v: PlaintextValueView) -> Option<Seq<Seq<Seq<Seq<char>>>>> {
    match v {
        PlaintextValueView::Array(vs) => if forall|i: int| 0 <= i < vs.len() ==> #[trigger] spec_rows(vs[i]) is Some {
            Some(Seq::new(vs.len(), |i: int| spec_rows(vs[i])->0))
        } else {
            None
        },
        _ => None,
    }
}

/// Each row of the instance trimmed to the number of public inputs of the key.
pub open spec fn spec_trim_instance(key: Seq<u8>, rows: Seq<Seq<Seq<char>>>) -> Option<Seq<Seq<Seq<char>>>> {
    match console_snark_key_inputs(key) {
        None => None,
        Some(n) => if forall|j: int| 0 <= j < rows.len() ==> #[trigger] spec_trimmed(n as nat, rows[j]) is Some {
            Some(Seq::new(rows.len(), |j: int| spec_trimmed(n as nat, rows[j])->0))
        } else {
            None
        },
    }
}

/// Each key with its instance trimmed: there must be one instance for each key.
pub open spec fn spec_trim_batch(keys: Seq<Seq<u8>>, batch: Seq<Seq<Seq<Seq<char>>>>) -> Option<
    Seq<(Seq<u8>, Seq<Seq<Seq<char>>>)>,
> {
    if keys.len() != batch.len() {
        None
    } else if forall|i: int| 0 <= i < keys.len() ==> #[trigger] spec_trim_instance(keys[i], batch[i]) is Some {
        Some(Seq::new(keys.len(), |i: int| (keys[i], spec_trim_instance(keys[i], batch[i])->0)))
    } else {
        None
    }
}

/// What the verification of the variant answers under the function name for the verifying
/// key(s), the Varuna version, the inputs and the proof: `None` where a part cannot be read,
/// there are too few inputs or an excess input is not zero (or, for a batch, the keys and the
/// instances differ in number); else whether the proof verifies.
pub open spec fn spec_evaluate_varuna(
    variant: SnarkVerifyVariant,
    name: Seq<char>,
    key: PlaintextValueView,
    version: PlaintextValueView,
    inputs: PlaintextValueView,
    proof: PlaintextValueView,
) -> Option<bool> {
    match variant {
        SnarkVerifyVariant::Varuna => match spec_as_byte_array(key) {
            None => None,
            Some(k) => match console_snark_key_inputs(k) {
                None => None,
                Some(n) => match spec_as_field_array(inputs) {
                    None => None,
                    Some(ins) => match spec_trimmed(n as nat, ins) {
                        None => None,
                        Some(t) => match version_byte(version) {
                            None => None,
                            Some(b) => match spec_as_byte_array(proof) {
                                None => None,
                                Some(p) => console_varuna_verify(name, k, b, t, p),
                            },
                        },
                    },
                },
            },
        },
        SnarkVerifyVariant::VarunaBatch => match spec_key_arrays(key) {
            None => None,
            Some(ks) => match spec_batch_inputs(inputs) {
                None => None,
                Some(bs) => match spec_trim_batch(ks, bs) {
                    None => None,
                    Some(t) => match version_byte(version) {
                        None => None,
                        Some(b) => match spec_as_byte_array(proof) {
                            None => None,
                            Some(p) => console_varuna_verify_batch(name, b, t, p),
                        },
                    },
                },
            },
        },
    }
}

/// The rows, as text.
pub open spec fn rows_view(v: Seq<Vec<String>>) -> Seq<Seq<Seq<char>>> {
    v.map_values(|row: Vec<String>| texts_view(row@))
}

fn copy_texts(v: &Vec<String>, n: usize) -> (r: Vec<String>)
    requires
        n <= v@.len(),
    ensures
        texts_view(r@) == texts_view(v@).take(n as int),
{
    let mut out: Vec<String> = Vec::new();
    let mut i: usize = 0;
    while i < n
        invariant
            i <= n <= v@.len(),
            texts_view(out@) == texts_view(v@).take(i as int),
        decreases n - i,
    {
        let ghost before = out@;
        let t = v[i].clone();
        assert(t@ == v@[i as int]@);
        out.push(t);
        assert(texts_view(out@) =~= texts_view(before).push(texts_view(v@)[i as int]));
        i = i + 1;
        assert(texts_view(out@) =~= texts_view(v@).take(i as int));
    }
    out
}

fn copy_bytes(v: &Vec<u8>) -> (r: Vec<u8>)
    ensures
        r@ == v@,
{
    let mut out: Vec<u8> = Vec::new();
    let mut i: usize = 0;
    while i < v.len()
        invariant
            i <= v@.len(),
            out@ == v@.take(i as int),
        decreases v.len() - i,
    {
        out.push(v[i]);
        i = i + 1;
        assert(out@ =~= v@.take(i as int));
    }
    assert(v@.take(i as int) =~= v@);
    out
}

/// Returns the first `n` inputs, where there are at least `n` and the rest are zero.
fn trimmed(n: usize, inputs: &Vec<String>) -> (r: Option<Vec<String>>)
    ensures
        spec_trimmed(n as nat, texts_view(inputs@)) == match r {
            Some(t) => Some(texts_view(t@)),
            None => None::<Seq<Seq<char>>>,
        },
{
    if inputs.len() < n {
        return None;
    }
    let ghost ts = texts_view(inputs@);
    let mut i: usize = n;
    while i < inputs.len()
        invariant
            n <= i <= inputs@.len(),
            ts == texts_view(inputs@),
            forall|k: int| n <= k < i ==> console_field_is_zero(#[trigger] ts[k]) == Some(true),
        decreases inputs.len() - i,
    {
        assert(ts[i as int] == inputs@[i as int]@);
        match field_is_zero(inputs[i].as_str()) {
            Some(true) => {},
            _ => {
                assert(!excess_zero(ts, n as nat));
                return None;
            },
        }
        i = i + 1;
    }
    Some(copy_texts(inputs, n))
}

fn version_of(v: &PlaintextValue) -> (r: Option<u8>)
    ensures
        r == version_byte(v@),
{
    proof {
        lemma_value_view(v);
    }
    match v {
        PlaintextValue::Literal(t) => literal_u8(t.as_str()),
        _ => None,
    }
}

fn rows_of(v: &PlaintextValue) -> (r: Option<Vec<Vec<String>>>)
    ensures
        spec_rows(v@) == match r {
            Some(x) => Some(rows_view(x@)),
            None => None::<Seq<Seq<Seq<char>>>>,
        },
{
    proof {
        lemma_value_view(v);
    }
    match v {
        PlaintextValue::Array(vs) => {
            let ghost values = values_view(vs@);
            let mut out: Vec<Vec<String>> = Vec::new();
            let mut i: usize = 0;
            while i < vs.len()
                invariant
                    i <= vs@.len(),
                    values == values_view(vs@),
                    v@ == PlaintextValueView::Array(values),
                    out@.len() == i,
                    forall|k: int| 0 <= k < i ==> #[trigger] spec_as_field_array(values[k]) == Some(texts_view(out@[k]@)),
                decreases vs.len() - i,
            {
                assert(values[i as int] == vs@[i as int]@);
                match as_field_array(&vs[i]) {
                    Some(f) => out.push(f),
                    None => return None,
                }
                i = i + 1;
            }
            assert(rows_view(out@) =~= Seq::new(values.len(), |k: int| spec_as_field_array(values[k])->0));
            Some(out)
        },
        _ => None,
    }
}

fn key_arrays(v: &PlaintextValue) -> (r: Option<Vec<Vec<u8>>>)
    ensures
        spec_key_arrays(v@) == match r {
            Some(x) => Some(x@.map_values(|b: Vec<u8>| b@)),
            None => None::<Seq<Seq<u8>>>,
        },
{
    proof {
        lemma_value_view(v);
    }
    match v {
        PlaintextValue::Array(vs) => {
            let ghost values = values_view(vs@);
            let mut out: Vec<Vec<u8>> = Vec::new();
            let mut i: usize = 0;
            while i < vs.len()
                invariant
                    i <= vs@.len(),
                    values == values_view(vs@),
                    v@ == PlaintextValueView::Array(values),
                    out@.len() == i,
                    forall|k: int| 0 <= k < i ==> #[trigger] spec_as_byte_array(values[k]) == Some(out@[k]@),
                decreases vs.len() - i,
            {
                assert(values[i as int] == vs@[i as int]@);
                match as_byte_array(&vs[i]) {
                    Some(b) => out.push(b),
                    None => return None,
                }
                i = i + 1;
            }
            assert(out@.map_values(|b: Vec<u8>| b@) =~= Seq::new(
                values.len(),
                |k: int| spec_as_byte_array(values[k])->0,
            ));
            Some(out)
        },
        _ => None,
    }
}

fn batch_inputs(v: &PlaintextValue) -> (r: Option<Vec<Vec<Vec<String>>>>)
    ensures
        spec_batch_inputs(v@) == match r {
            Some(x) => Some(x@.map_values(|rows: Vec<Vec<String>>| rows_view(rows@))),
            None => None::<Seq<Seq<Seq<Seq<char>>>>>,
        },
{
    proof {
        lemma_value_view(v);
    }
    match v {
        PlaintextValue::Array(vs) => {
            let ghost values = values_view(vs@);
            let mut out: Vec<Vec<Vec<String>>> = Vec::new();
            let mut i: usize = 0;
            while i < vs.len()
                invariant
                    i <= vs@.len(),
                    values == values_view(vs@),
                    v@ == PlaintextValueView::Array(values),
                    out@.len() == i,
                    forall|k: int| 0 <= k < i ==> #[trigger] spec_rows(values[k]) == Some(rows_view(out@[k]@)),
                decreases vs.len() - i,
            {
                assert(values[i as int] == vs@[i as int]@);
                match rows_of(&vs[i]) {
                    Some(r) => out.push(r),
                    None => return None,
                }
                i = i + 1;
            }
            assert(out@.map_values(|rows: Vec<Vec<String>>| rows_view(rows@)) =~= Seq::new(
                values.len(),
                |k: int| spec_rows(values[k])->0,
            ));
            Some(out)
        },
        _ => None,
    }
}

fn trim_instance(key: &Vec<u8>, rows: &Vec<Vec<String>>) -> (r: Option<Vec<Vec<String>>>)
    ensures
        spec_trim_instance(key@, rows_view(rows@)) == match r {
            Some(x) => Some(rows_view(x@)),
            None => None::<Seq<Seq<Seq<char>>>>,
        },
{
    let n = match snark_key_inputs(key) {
        Some(n) => n,
        None => return None,
    };
    let ghost rv = rows_view(rows@);
    let mut out: Vec<Vec<String>> = Vec::new();
    let mut j: usize = 0;
    while j < rows.len()
        invariant
            j <= rows@.len(),
            rv == rows_view(rows@),
            console_snark_key_inputs(key@) == Some(n),
            out@.len() == j,
            forall|k: int| 0 <= k < j ==> #[trigger] spec_trimmed(n as nat, rv[k]) == Some(texts_view(out@[k]@)),
        decreases rows.len() - j,
    {
        assert(rv[j as int] == texts_view(rows@[j as int]@));
        match trimmed(n, &rows[j]) {
            Some(t) => out.push(t),
            None => return None,
        }
        j = j + 1;
    }
    assert(rows_view(out@) =~= Seq::new(rv.len(), |k: int| spec_trimmed(n as nat, rv[k])->0));
    Some(out)
}

fn trim_batch(keys: &Vec<Vec<u8>>, batch: &Vec<Vec<Vec<String>>>) -> (r: Option<Vec<(Vec<u8>, Vec<Vec<String>>)>>)
    ensures
        spec_trim_batch(
            keys@.map_values(|b: Vec<u8>| b@),
            batch@.map_values(|rows: Vec<Vec<String>>| rows_view(rows@)),
        ) == match r {
            Some(x) => Some(batch_view(x@)),
            None => None::<Seq<(Seq<u8>, Seq<Seq<Seq<char>>>)>>,
        },
{
    let ghost ks = keys@.map_values(|b: Vec<u8>| b@);
    let ghost bs = batch@.map_values(|rows: Vec<Vec<String>>| rows_view(rows@));
    if keys.len() != batch.len() {
        return None;
    }
    let mut out: Vec<(Vec<u8>, Vec<Vec<String>>)> = Vec::new();
    let mut i: usize = 0;
    while i < keys.len()
        invariant
            i <= keys@.len(),
            keys@.len() == batch@.len(),
            ks == keys@.map_values(|b: Vec<u8>| b@),
            bs == batch@.map_values(|rows: Vec<Vec<String>>| rows_view(rows@)),
            out@.len() == i,
            forall|k: int|
                0 <= k < i ==> #[trigger] spec_trim_instance(ks[k], bs[k]) is Some && batch_view(out@)[k] == (
                    ks[k],
                    spec_trim_instance(ks[k], bs[k])->0,
                ),
        decreases keys.len() - i,
    {
        assert(ks[i as int] == keys@[i as int]@ && bs[i as int] == rows_view(batch@[i as int]@));
        match trim_instance(&keys[i], &batch[i]) {
            Some(t) => out.push((copy_bytes(&keys[i]), t)),
            None => return None,
        }
        i = i + 1;
    }
    assert(batch_view(out@) =~= Seq::new(ks.len(), |k: int| (ks[k], spec_trim_instance(ks[k], bs[k])->0)));
    Some(out)
}

/// Checks a Varuna proof (or a batch of proofs) as the variant does, under the function name,
/// for the verifying key(s), the Varuna version, the inputs and the proof: `None` where a part
/// cannot be read or the inputs do not fit the keys, else whether the proof verifies.
pub fn evaluate_varuna_proof(
    variant: SnarkVerifyVariant,
    function_name: &str,
    verifying_key: &PlaintextValue,
    varuna_version: &PlaintextValue,
    inputs: &PlaintextValue,
    proof: &PlaintextValue,
) -> (r: Option<bool>)
    ensures
        r == spec_evaluate_varuna(variant, function_name@, verifying_key@, varuna_version@, inputs@, proof@),
{
    match variant {
        SnarkVerifyVariant::Varuna => {
            let k = match as_byte_array(verifying_key) {
                Some(k) => k,
                None => return None,
            };
            let n = match snark_key_inputs(&k) {
                Some(n) => n,
                None => return None,
            };
            let ins = match as_field_array(inputs) {
                Some(f) => f,
                None => return None,
            };
            let t = match trimmed(n, &ins) {
                Some(t) => t,
                None => return None,
            };
            let b = match version_of(varuna_version) {
                Some(b) => b,
                None => return None,
            };
            let p = match as_byte_array(proof) {
                Some(p) => p,
                None => return None,
            };
            varuna_verify(function_name, &k, b, &t, &p)
        },
        SnarkVerifyVariant::VarunaBatch => {
            let ks = match key_arrays(verifying_key) {
                Some(k) => k,
                None => return None,
            };
            let bs = match batch_inputs(inputs) {
                Some(b) => b,
                None => return None,
            };
            let t = match trim_batch(&ks, &bs) {
                Some(t) => t,
                None => return None,
            };
            let b = match version_of(varuna_version) {
                Some(b) => b,
                None => return None,
            };
            let p = match as_byte_array(proof) {
                Some(p) => p,
                None => return None,
            };
            varuna_verify_batch(function_name, b, &t, &p)
        },
    }
}

impl SnarkVerification {
    /// Performs the check on the values of the four operands (verifying key or keys, Varuna
    /// version, inputs, proof) under the name `snark.verify`, and returns the value for the
    /// destination, a boolean literal, as the instruction does in a finalize scope; `None` where
    /// the check fails with an error.
    pub fn finalize(
        &self,
        verifying_key: &PlaintextValue,
        varuna_version: &PlaintextValue,
        inputs: &PlaintextValue,
        proof: &PlaintextValue,
    ) -> (r: Option<PlaintextValue>)
        ensures
            match spec_evaluate_varuna(
                self@.variant,
                "snark.verify"@,
                verifying_key@,
                varuna_version@,
                inputs@,
                proof@,
            ) {
                Some(b) => r matches Some(v) && v@ == PlaintextValueView::Literal(bit_text(b)),
                None => r is None,
            },
    {
        match evaluate_varuna_proof(self.variant, "snark.verify", verifying_key, varuna_version, inputs, proof) {
            Some(b) => {
                let text = if b {
                    string_of(&chars_of("true"))
                } else {
                    string_of(&chars_of("false"))
                };
                Some(PlaintextValue::Literal(text))
            },
            None => None,
        }
    }
}


/// Trimming keeps exactly `n` inputs, the first `n` in order, and only where the inputs beyond
/// them are all zero field elements.
pub proof fn lemma_trimmed(n: nat, inputs: Seq<Seq<char>>)
    ensures
        spec_trimmed(n, inputs) is Some <==> (n <= inputs.len() && forall|k: int|
            n <= k < inputs.len() ==> console_field_is_zero(#[trigger] inputs[k]) == Some(true)),
        spec_trimmed(n, inputs) matches Some(t) ==> t.len() == n && forall|i: int|
            0 <= i < n ==> #[trigger] t[i] == inputs[i],
{
}

/// `snark.verify` hands the verifier exactly the key's number `n` of public inputs: with a key,
/// a version, inputs and a proof that can be read, it answers whether the proof verifies for the
/// first `n` inputs where there are at least `n` and the rest are zero, and nothing otherwise.
pub proof fn lemma_varuna_verifies_trimmed_inputs(
    name: Seq<char>,
    key: PlaintextValueView,
    version: PlaintextValueView,
    inputs: PlaintextValueView,
    proof: PlaintextValueView,
    k: Seq<u8>,
    n: usize,
    ins: Seq<Seq<char>>,
    b: u8,
    p: Seq<u8>,
)
    requires
        spec_as_byte_array(key) == Some(k),
        console_snark_key_inputs(k) == Some(n),
        spec_as_field_array(inputs) == Some(ins),
        version_byte(version) == Some(b),
        spec_as_byte_array(proof) == Some(p),
    ensures
        spec_evaluate_varuna(SnarkVerifyVariant::Varuna, name, key, version, inputs, proof) == if n <= ins.len()
            && forall|j: int| n <= j < ins.len() ==> console_field_is_zero(#[trigger] ins[j]) == Some(true) {
            console_varuna_verify(name, k, b, ins.subrange(0, n as int), p)
        } else {
            None
        },
{
    if n <= ins.len() && forall|j: int| n <= j < ins.len() ==> console_field_is_zero(#[trigger] ins[j]) == Some(true) {
        assert(ins.take(n as int) =~= ins.subrange(0, n as int));
    }
}


/// For a batch, each row of each instance is trimmed to its own key's number `n` of public
/// inputs: the rows keep their first `n` inputs, and every row must have at least `n` inputs with
/// zeros beyond them.
pub proof fn lemma_trim_instance(key: Seq<u8>, rows: Seq<Seq<Seq<char>>>, n: usize)
    requires
        console_snark_key_inputs(key) == Some(n),
    ensures
        spec_trim_instance(key, rows) is Some <==> forall|j: int|
            0 <= j < rows.len() ==> n <= (#[trigger] rows[j]).len() && forall|k: int|
                n <= k < rows[j].len() ==> console_field_is_zero(#[trigger] rows[j][k]) == Some(true),
        spec_trim_instance(key, rows) matches Some(t) ==> t.len() == rows.len() && forall|j: int|
            0 <= j < rows.len() ==> #[trigger] t[j] == rows[j].subrange(0, n as int),
{
    assert forall|j: int| 0 <= j < rows.len() implies (spec_trimmed(n as nat, #[trigger] rows[j]) is Some <==> (n
        <= rows[j].len() && forall|k: int| n <= k < rows[j].len() ==> console_field_is_zero(#[trigger] rows[j][k])
        == Some(true))) && (spec_trimmed(n as nat, rows[j]) is Some ==> spec_trimmed(n as nat, rows[j])->0
        == rows[j].subrange(0, n as int)) by {
        lemma_trimmed(n as nat, rows[j]);
        assert(rows[j].take(n as int) =~= rows[j].subrange(0, n as int));
    }
}

} // verus!
