//! The `ecdsa.verify` instructions: check an ECDSA signature over a message against a public
//! key or an address, as in `ecdsa.verify.digest r0 r1 r2 into r3`.
use vstd::prelude::*;

use crate::call_dynamic::operands_view;
use crate::instruction::{into_string, into_text, parse_into, spec_parse_into};
use crate::op_bytes::{
    normal_operands, normal_register, read_ops_register, spec_ops_register_bytes, spec_read_ops_register,
    write_ops_register,
};
use crate::operand::{tail, Operand, OperandView, Register, RegisterView};
use crate::syntax::tail_of;
use crate::text::{chars_of, string_of};
use crate::types::{boolean_type, ecdsa_verify_error, ecdsa_verify_output_types, register_types_view, RegisterType, TypeError};
use crate::console::{
    console_ecdsa_key_ok, console_ecdsa_signature_ok, console_ecdsa_verify_digest, console_ecdsa_verify_ethereum_digest,
    ecdsa_key_ok, ecdsa_signature_ok, ecdsa_verify_digest, ecdsa_verify_ethereum_digest, console_hash_keccak256,
    console_hash_keccak384, console_hash_keccak512, console_hash_sha3_256, console_hash_sha3_384,
    console_hash_sha3_512,
};
use crate::hash::{digest, spec_digest};
use crate::plaintext_bits::{
    bit_text, bits_of_value, bytes_from_bits_le, bytes_of_bits, value_bits, value_fits, value_text, PlaintextValue,
    PlaintextValueView,
};
use crate::variants::ECDSAVerifyVariant;

verus! {

/// The mathematical value of an `ecdsa.verify` instruction.
pub ghost struct ECDSAVerifyView {
    pub variant: ECDSAVerifyVariant,
    pub operands: Seq<OperandView>,
    pub destination: RegisterView,
}

/// An `ecdsa.verify` instruction: its operands are the signature, the public key (or address)
/// and the message.
#[derive(Debug, PartialEq, Eq)]
pub struct ECDSAVerify {
    variant: ECDSAVerifyVariant,
    operands: Vec<Operand>,
    destination: Register,
}

impl View for ECDSAVerify {
    type V = ECDSAVerifyView;

    closed spec fn view(&self) -> ECDSAVerifyView {
        ECDSAVerifyView { variant: self.variant, operands: operands_view(self.operands@), destination: self.destination@ }
    }
}

impl ECDSAVerify {
    /// The instruction has three operands.
    pub closed spec fn wf(&self) -> bool {
        self.operands@.len() == 3
    }

    /// Makes an `ecdsa.verify` instruction of the variant: refused unless it has three
    /// operands.
    pub fn new(variant: ECDSAVerifyVariant, operands: Vec<Operand>, destination: Register) -> (r: Result<
        ECDSAVerify,
        TypeError,
    >)
        ensures
            operands@.len() != 3 ==> r == Err::<ECDSAVerify, TypeError>(TypeError::OperandCount),
            operands@.len() == 3 ==> (r matches Ok(e) && e.wf() && e@ == (ECDSAVerifyView {
                variant,
                operands: operands_view(operands@),
                destination: destination@,
            })),
    {
        if operands.len() != 3 {
            return Err(TypeError::OperandCount);
        }
        Ok(ECDSAVerify { variant, operands, destination })
    }

    /// The variant.
    pub fn variant(&self) -> (r: ECDSAVerifyVariant)
        ensures
            r == self@.variant,
    {
        self.variant
    }

    /// The operands.
    pub fn operands(&self) -> (r: &Vec<Operand>)
        ensures
            operands_view(r@) == self@.operands,
    {
        &self.operands
    }

    /// The opcode.
    pub fn opcode(&self) -> (r: &'static str)
        ensures
            r@ == self@.variant.spec_opcode(),
    {
        self.variant.opcode()
    }

    /// The destination registers: the one destination.
    pub fn destinations(&self) -> (r: Vec<Register>)
        ensures
            r@.len() == 1,
            r@[0]@ == self@.destination,
    {
        let mut v: Vec<Register> = Vec::new();
        v.push(self.destination.copy());
        v
    }

    /// The destination register.
    pub fn destination(&self) -> (r: &Register)
        ensures
            r@ == self@.destination,
    {
        &self.destination
    }

    /// The instruction names no struct of another program.
    pub fn contains_external_struct(&self) -> (r: bool)
        ensures
            !r,
    {
        false
    }

    /// Returns the output types of the instruction with the input types, `message_bits` being
    /// the size in bits of the message's type where it can be determined: one boolean, or why
    /// the inputs are refused.
    pub fn output_types(&self, input_types: &Vec<RegisterType>, message_bits: Option<u64>) -> (r: Result<
        Vec<RegisterType>,
        TypeError,
    >)
        ensures
            match ecdsa_verify_error(self@.variant, register_types_view(input_types@), message_bits) {
                Some(e) => r == Err::<Vec<RegisterType>, TypeError>(e),
                None => r matches Ok(v) && register_types_view(v@) == seq![boolean_type()],
            },
    {
        ecdsa_verify_output_types(self.variant, input_types, message_bits)
    }
}

/// What the `ecdsa.verify` parser of the variant reads from the start of the text: the
/// opcode, three operands, `into` and the destination register, with whitespace between them.
/// The length of the rest and the instruction.
pub open spec fn spec_parse_ecdsa_verify(variant: ECDSAVerifyVariant, t: Seq<char>) -> Option<(nat, ECDSAVerifyView)> {
    match spec_parse_into(variant.spec_opcode(), 3, t) {
        Some((k, operands, destination)) => Some((k, ECDSAVerifyView { variant, operands, destination })),
        None => None,
    }
}

/// The printed instruction.
pub open spec fn ecdsa_verify_text(e: ECDSAVerifyView) -> Seq<char> {
    into_text(e.variant.spec_opcode(), e.operands, e.destination)
}

impl ECDSAVerify {
    /// Parses an `ecdsa.verify` instruction of the variant from the start of the characters.
    pub fn parse_chars(variant: ECDSAVerifyVariant, t: &[char]) -> (r: Option<(usize, ECDSAVerify)>)
        ensures
            spec_parse_ecdsa_verify(variant, t@) == match r {
                Some((k, e)) => Some((k as nat, e@)),
                None => None::<(nat, ECDSAVerifyView)>,
            },
            r matches Some((k, e)) ==> k <= t@.len() && e.wf(),
    {
        match parse_into(variant.opcode(), 3, t) {
            Some((k, operands, destination)) => Some((k, ECDSAVerify { variant, operands, destination })),
            None => None,
        }
    }

    /// Parses an `ecdsa.verify` instruction of the variant from the start of the string: the
    /// rest of the string and the instruction.
    pub fn parse(variant: ECDSAVerifyVariant, string: &str) -> (r: Option<(String, ECDSAVerify)>)
        ensures
            match spec_parse_ecdsa_verify(variant, string@) {
                Some((k, e)) => r matches Some((rest, x)) && rest@ == tail(string@, k) && x@ == e && x.wf(),
                None => r is None,
            },
    {
        let s = chars_of(string);
        match ECDSAVerify::parse_chars(variant, &s) {
            Some((k, e)) => Some((string_of(tail_of(&s, k)), e)),
            None => None,
        }
    }

    /// Parses an `ecdsa.verify` instruction of the variant from the whole string.
    pub fn from_str(variant: ECDSAVerifyVariant, string: &str) -> (r: Option<ECDSAVerify>)
        ensures
            match spec_parse_ecdsa_verify(variant, string@) {
                Some((k, e)) => if k == 0 {
                    r matches Some(x) && x@ == e
                } else {
                    r is None
                },
                None => r is None,
            },
    {
        let s = chars_of(string);
        match ECDSAVerify::parse_chars(variant, &s) {
            Some((k, e)) => if k == 0 {
                Some(e)
            } else {
                None
            },
            None => None,
        }
    }

    /// Returns the printed instruction.
    pub fn to_string(&self) -> (r: String)
        requires
            self.wf(),
        ensures
            r@ == ecdsa_verify_text(self@),
    {
        into_string(self.variant.opcode(), self.operands.as_slice(), &self.destination)
    }
}

/// The bytes of an `ecdsa.verify` instruction: its operands, then its destination.
pub open spec fn spec_ecdsa_verify_bytes(v: ECDSAVerifyView) -> Option<Seq<u8>> {
    spec_ops_register_bytes(v.operands, v.destination)
}

/// An `ecdsa.verify` instruction of the variant read from the bytes: the number of bytes left and
/// the instruction.
pub open spec fn spec_read_ecdsa_verify(variant: ECDSAVerifyVariant, b: Seq<u8>) -> Option<(nat, ECDSAVerifyView)> {
    match spec_read_ops_register(b, 3) {
        Some((k, operands, destination)) => Some((k, ECDSAVerifyView { variant, operands, destination })),
        None => None,
    }
}

/// The instruction as console reads back what its operands and destination hold.
pub open spec fn normal_ecdsa_verify(v: ECDSAVerifyView) -> ECDSAVerifyView {
    ECDSAVerifyView {
        variant: v.variant,
        operands: normal_operands(v.operands),
        destination: normal_register(v.destination),
    }
}

impl ECDSAVerify {
    /// Writes the instruction as bytes: `None` where console cannot write what an operand or
    /// the destination holds. Reading the bytes back gives the instruction as console reads
    /// back what it holds, whatever follows.
    pub fn write_le(&self) -> (r: Option<Vec<u8>>)
        requires
            self.wf(),
        ensures
            spec_ecdsa_verify_bytes(self@) == match r {
                Some(b) => Some(b@),
                None => None::<Seq<u8>>,
            },
            r matches Some(b) ==> forall|rest: Seq<u8>|
                #[trigger] spec_read_ecdsa_verify(self@.variant, b@ + rest) == Some((rest.len(), normal_ecdsa_verify(self@))),
    {
        let mut out: Vec<u8> = Vec::new();
        if !write_ops_register(&mut out, self.operands.as_slice(), &self.destination) {
            return None;
        }
        assert(out@ =~= spec_ecdsa_verify_bytes(self@)->0);
        Some(out)
    }

    /// Reads an `ecdsa.verify` instruction of the variant from the start of the bytes: the number of
    /// bytes left and the instruction.
    pub fn read_le(variant: ECDSAVerifyVariant, b: &[u8]) -> (r: Option<(usize, ECDSAVerify)>)
        ensures
            spec_read_ecdsa_verify(variant, b@) == match r {
                Some((k, x)) => Some((k as nat, x@)),
                None => None::<(nat, ECDSAVerifyView)>,
            },
            r matches Some((k, x)) ==> k <= b@.len() && x.wf(),
    {
        match read_ops_register(b, 3) {
            Some((k, operands, destination)) => Some((k, ECDSAVerify { variant, operands, destination })),
            None => None,
        }
    }
}

/// How an ECDSA variant checks: whether it checks against an Ethereum address (rather than a
/// public key), whether it reads the message's bare values (rather than its bits with
/// metadata), and which digest it takes of the message (Keccak-256, Keccak-384, Keccak-512,
/// SHA3-256, SHA3-384, SHA3-512 at positions 0 to 5), if any (otherwise the message is the
/// digest).
pub open spec fn spec_ecdsa_plan(v: ECDSAVerifyVariant) -> (bool, bool, Option<u8>) {
    match v {
        ECDSAVerifyVariant::Digest => (false, true, None),
        ECDSAVerifyVariant::DigestEth => (true, true, None),
        ECDSAVerifyVariant::HashKeccak256 => (false, false, Some(0u8)),
        ECDSAVerifyVariant::HashKeccak256Raw => (false, true, Some(0u8)),
        ECDSAVerifyVariant::HashKeccak256Eth => (true, true, Some(0u8)),
        ECDSAVerifyVariant::HashKeccak384 => (false, false, Some(1u8)),
        ECDSAVerifyVariant::HashKeccak384Raw => (false, true, Some(1u8)),
        ECDSAVerifyVariant::HashKeccak384Eth => (true, true, Some(1u8)),
        ECDSAVerifyVariant::HashKeccak512 => (false, false, Some(2u8)),
        ECDSAVerifyVariant::HashKeccak512Raw => (false, true, Some(2u8)),
        ECDSAVerifyVariant::HashKeccak512Eth => (true, true, Some(2u8)),
        ECDSAVerifyVariant::HashSha3_256 => (false, false, Some(3u8)),
        ECDSAVerifyVariant::HashSha3_256Raw => (false, true, Some(3u8)),
        ECDSAVerifyVariant::HashSha3_256Eth => (true, true, Some(3u8)),
        ECDSAVerifyVariant::HashSha3_384 => (false, false, Some(4u8)),
        ECDSAVerifyVariant::HashSha3_384Raw => (false, true, Some(4u8)),
        ECDSAVerifyVariant::HashSha3_384Eth => (true, true, Some(4u8)),
        ECDSAVerifyVariant::HashSha3_512 => (false, false, Some(5u8)),
        ECDSAVerifyVariant::HashSha3_512Raw => (false, true, Some(5u8)),
        ECDSAVerifyVariant::HashSha3_512Eth => (true, true, Some(5u8)),
    }
}

fn ecdsa_plan(v: ECDSAVerifyVariant) -> (r: (bool, bool, Option<u8>))
    ensures
        r == spec_ecdsa_plan(v),
{
    match v {
        ECDSAVerifyVariant::Digest => (false, true, None),
        ECDSAVerifyVariant::DigestEth => (true, true, None),
        ECDSAVerifyVariant::HashKeccak256 => (false, false, Some(0u8)),
        ECDSAVerifyVariant::HashKeccak256Raw => (false, true, Some(0u8)),
        ECDSAVerifyVariant::HashKeccak256Eth => (true, true, Some(0u8)),
        ECDSAVerifyVariant::HashKeccak384 => (false, false, Some(1u8)),
        ECDSAVerifyVariant::HashKeccak384Raw => (false, true, Some(1u8)),
        ECDSAVerifyVariant::HashKeccak384Eth => (true, true, Some(1u8)),
        ECDSAVerifyVariant::HashKeccak512 => (false, false, Some(2u8)),
        ECDSAVerifyVariant::HashKeccak512Raw => (false, true, Some(2u8)),
        ECDSAVerifyVariant::HashKeccak512Eth => (true, true, Some(2u8)),
        ECDSAVerifyVariant::HashSha3_256 => (false, false, Some(3u8)),
        ECDSAVerifyVariant::HashSha3_256Raw => (false, true, Some(3u8)),
        ECDSAVerifyVariant::HashSha3_256Eth => (true, true, Some(3u8)),
        ECDSAVerifyVariant::HashSha3_384 => (false, false, Some(4u8)),
        ECDSAVerifyVariant::HashSha3_384Raw => (false, true, Some(4u8)),
        ECDSAVerifyVariant::HashSha3_384Eth => (true, true, Some(4u8)),
        ECDSAVerifyVariant::HashSha3_512 => (false, false, Some(5u8)),
        ECDSAVerifyVariant::HashSha3_512Raw => (false, true, Some(5u8)),
        ECDSAVerifyVariant::HashSha3_512Eth => (true, true, Some(5u8)),
    }
}

/// What the ECDSA variant answers for the signature, the public key (or address) and the
/// message: `None` where the signature or the key cannot be read (console reads each from the
/// bytes of its bare bits), `Some(false)` where the digest cannot be taken, else whether the
/// signature verifies.
pub open spec fn spec_evaluate_ecdsa(
    v: ECDSAVerifyVariant,
    signature: PlaintextValueView,
    key: PlaintextValueView,
    message: PlaintextValueView,
) -> Option<bool> {
    let (eth, raw, dg) = spec_ecdsa_plan(v);
    match value_bits(value_text(signature), true) {
        None => None,
        Some(sb) => {
            let sbytes = bytes_of_bits(sb);
            if !console_ecdsa_signature_ok(sbytes) {
                None
            } else {
                match value_bits(value_text(key), true) {
                    None => None,
                    Some(kb) => {
                        let kbytes = bytes_of_bits(kb);
                        let key_ok = if eth {
                            kbytes.len() == 20
                        } else {
                            console_ecdsa_key_ok(kbytes)
                        };
                        if !key_ok {
                            None
                        } else {
                            match value_bits(value_text(message), raw) {
                                None => None,
                                Some(mb) => match (match dg {
                                    Some(k) => spec_digest(k, mb),
                                    None => Some(mb),
                                }) {
                                    None => Some(false),
                                    Some(d) => if eth {
                                        console_ecdsa_verify_ethereum_digest(sbytes, kbytes, d)
                                    } else {
                                        console_ecdsa_verify_digest(sbytes, kbytes, d)
                                    },
                                },
                            }
                        }
                    },
                }
            }
        },
    }
}

/// Checks the ECDSA signature over the message against the public key (or the Ethereum address)
/// as the variant does: `None` where the signature or the key cannot be read, else whether the
/// signature verifies.
pub fn evaluate_ecdsa_verification(
    variant: ECDSAVerifyVariant,
    signature: &PlaintextValue,
    public_key: &PlaintextValue,
    message: &PlaintextValue,
) -> (r: Option<bool>)
    requires
        !spec_ecdsa_plan(variant).1 ==> value_fits(message@),
    ensures
        r == spec_evaluate_ecdsa(variant, signature@, public_key@, message@),
{
    let (eth, raw, dg) = ecdsa_plan(variant);
    let sb = match bits_of_value(signature, true) {
        Some(b) => b,
        None => return None,
    };
    let sbytes = bytes_from_bits_le(&sb);
    if !ecdsa_signature_ok(&sbytes) {
        return None;
    }
    let kb = match bits_of_value(public_key, true) {
        Some(b) => b,
        None => return None,
    };
    let kbytes = bytes_from_bits_le(&kb);
    let key_ok = if eth {
        kbytes.len() == 20
    } else {
        ecdsa_key_ok(&kbytes)
    };
    if !key_ok {
        return None;
    }
    let mb = match bits_of_value(message, raw) {
        Some(b) => b,
        None => return None,
    };
    let d = match dg {
        Some(k) => digest(k, &mb),
        None => Some(mb),
    };
    match d {
        None => Some(false),
        Some(d) => if eth {
            ecdsa_verify_ethereum_digest(&sbytes, &kbytes, &d)
        } else {
            ecdsa_verify_digest(&sbytes, &kbytes, &d)
        },
    }
}

impl ECDSAVerify {
    /// Performs the check on the values of the three operands (signature, public key or
    /// address, message) and returns the value for the destination, a boolean literal, as the
    /// instruction does in a finalize scope; `None` where the signature or the key cannot be
    /// read, or where the variant reads the bits of the message with metadata and console could
    /// not write them.
    pub fn finalize(&self, signature: &PlaintextValue, public_key: &PlaintextValue, message: &PlaintextValue) -> (r:
        Option<PlaintextValue>)
        ensures
            if !spec_ecdsa_plan(self@.variant).1 && !value_fits(message@) {
                r is None
            } else {
                match spec_evaluate_ecdsa(self@.variant, signature@, public_key@, message@) {
                    Some(b) => r matches Some(v) && v@ == PlaintextValueView::Literal(bit_text(b)),
                    None => r is None,
                }
            },
    {
        let (_, raw, _) = ecdsa_plan(self.variant);
        if !raw && !message.bits_fit() {
            return None;
        }
        match evaluate_ecdsa_verification(self.variant, signature, public_key, message) {
            Some(b) => {
                let text = if b {
                    string_of(&chars_of("true"))
                } else {
                    string_of(&chars_of("false"))
                };
                Some(PlaintextValue::Literal(text))
            },
            None => None,
        }
    }
}


/// The bytes of the bare bits of the signature and of the key, where console reads a signature
/// from the first and, where `eth`, the second is a 20-byte Ethereum address, else console reads
/// a public key from it.
pub open spec fn signed_by(signature: PlaintextValueView, key: PlaintextValueView, eth: bool) -> Option<
    (Seq<u8>, Seq<u8>),
> {
    match (value_bits(value_text(signature), true), value_bits(value_text(key), true)) {
        (Some(s), Some(k)) => {
            let sb = bytes_of_bits(s);
            let kb = bytes_of_bits(k);
            if console_ecdsa_signature_ok(sb) && (if eth {
                kb.len() == 20
            } else {
                console_ecdsa_key_ok(kb)
            }) {
                Some((sb, kb))
            } else {
                None
            }
        },
        _ => None,
    }
}

/// Each ECDSA variant checks the signature over the digest its opcode names: `.digest` takes
/// the message's bare bits as the digest; `.keccak256`, `.keccak384`, `.keccak512`,
/// `.sha3_256`, `.sha3_384` and `.sha3_512` take that digest of the message's bits with metadata
/// (of its bare bits for `.raw` and `.eth`); the `.eth` variants check against an Ethereum
/// address, the others against a public key. A digest that cannot be taken fails the check.
pub proof fn lemma_ecdsa_variants(signature: PlaintextValueView, key: PlaintextValueView, message: PlaintextValueView)
    ensures
        spec_evaluate_ecdsa(ECDSAVerifyVariant::Digest, signature, key, message) == match signed_by(signature, key, false) {
            None => None,
            Some((sb, kb)) => match value_bits(value_text(message), true) {
                None => None,
                Some(mb) => console_ecdsa_verify_digest(sb, kb, mb),
            },
        },
        spec_evaluate_ecdsa(ECDSAVerifyVariant::DigestEth, signature, key, message) == match signed_by(signature, key, true) {
            None => None,
            Some((sb, kb)) => match value_bits(value_text(message), true) {
                None => None,
                Some(mb) => console_ecdsa_verify_ethereum_digest(sb, kb, mb),
            },
        },
        spec_evaluate_ecdsa(ECDSAVerifyVariant::HashKeccak256, signature, key, message) == match signed_by(signature, key, false) {
            None => None,
            Some((sb, kb)) => match value_bits(value_text(message), false) {
                None => None,
                Some(mb) => match console_hash_keccak256(mb) {
                    None => Some(false),
                    Some(d) => console_ecdsa_verify_digest(sb, kb, d),
                },
            },
        },
        spec_evaluate_ecdsa(ECDSAVerifyVariant::HashKeccak256Raw, signature, key, message) == match signed_by(signature, key, false) {
            None => None,
            Some((sb, kb)) => match value_bits(value_text(message), true) {
                None => None,
                Some(mb) => match console_hash_keccak256(mb) {
                    None => Some(false),
                    Some(d) => console_ecdsa_verify_digest(sb, kb, d),
                },
            },
        },
        spec_evaluate_ecdsa(ECDSAVerifyVariant::HashKeccak256Eth, signature, key, message) == match signed_by(signature, key, true) {
            None => None,
            Some((sb, kb)) => match value_bits(value_text(message), true) {
                None => None,
                Some(mb) => match console_hash_keccak256(mb) {
                    None => Some(false),
                    Some(d) => console_ecdsa_verify_ethereum_digest(sb, kb, d),
                },
            },
        },
        spec_evaluate_ecdsa(ECDSAVerifyVariant::HashKeccak384, signature, key, message) == match signed_by(signature, key, false) {
            None => None,
            Some((sb, kb)) => match value_bits(value_text(message), false) {
                None => None,
                Some(mb) => match console_hash_keccak384(mb) {
                    None => Some(false),
                    Some(d) => console_ecdsa_verify_digest(sb, kb, d),
                },
            },
        },
        spec_evaluate_ecdsa(ECDSAVerifyVariant::HashKeccak384Raw, signature, key, message) == match signed_by(signature, key, false) {
            None => None,
            Some((sb, kb)) => match value_bits(value_text(message), true) {
                None => None,
                Some(mb) => match console_hash_keccak384(mb) {
                    None => Some(false),
                    Some(d) => console_ecdsa_verify_digest(sb, kb, d),
                },
            },
        },
        spec_evaluate_ecdsa(ECDSAVerifyVariant::HashKeccak384Eth, signature, key, message) == match signed_by(signature, key, true) {
            None => None,
            Some((sb, kb)) => match value_bits(value_text(message), true) {
                None => None,
                Some(mb) => match console_hash_keccak384(mb) {
                    None => Some(false),
                    Some(d) => console_ecdsa_verify_ethereum_digest(sb, kb, d),
                },
            },
        },
        spec_evaluate_ecdsa(ECDSAVerifyVariant::HashKeccak512, signature, key, message) == match signed_by(signature, key, false) {
            None => None,
            Some((sb, kb)) => match value_bits(value_text(message), false) {
                None => None,
                Some(mb) => match console_hash_keccak512(mb) {
                    None => Some(false),
                    Some(d) => console_ecdsa_verify_digest(sb, kb, d),
                },
            },
        },
        spec_evaluate_ecdsa(ECDSAVerifyVariant::HashKeccak512Raw, signature, key, message) == match signed_by(signature, key, false) {
            None => None,
            Some((sb, kb)) => match value_bits(value_text(message), true) {
                None => None,
                Some(mb) => match console_hash_keccak512(mb) {
                    None => Some(false),
                    Some(d) => console_ecdsa_verify_digest(sb, kb, d),
                },
            },
        },
        spec_evaluate_ecdsa(ECDSAVerifyVariant::HashKeccak512Eth, signature, key, message) == match signed_by(signature, key, true) {
            None => None,
            Some((sb, kb)) => match value_bits(value_text(message), true) {
                None => None,
                Some(mb) => match console_hash_keccak512(mb) {
                    None => Some(false),
                    Some(d) => console_ecdsa_verify_ethereum_digest(sb, kb, d),
                },
            },
        },
        spec_evaluate_ecdsa(ECDSAVerifyVariant::HashSha3_256, signature, key, message) == match signed_by(signature, key, false) {
            None => None,
            Some((sb, kb)) => match value_bits(value_text(message), false) {
                None => None,
                Some(mb) => match console_hash_sha3_256(mb) {
                    None => Some(false),
                    Some(d) => console_ecdsa_verify_digest(sb, kb, d),
                },
            },
        },
        spec_evaluate_ecdsa(ECDSAVerifyVariant::HashSha3_256Raw, signature, key, message) == match signed_by(signature, key, false) {
            None => None,
            Some((sb, kb)) => match value_bits(value_text(message), true) {
                None => None,
                Some(mb) => match console_hash_sha3_256(mb) {
                    None => Some(false),
                    Some(d) => console_ecdsa_verify_digest(sb, kb, d),
                },
            },
        },
        spec_evaluate_ecdsa(ECDSAVerifyVariant::HashSha3_256Eth, signature, key, message) == match signed_by(signature, key, true) {
            None => None,
            Some((sb, kb)) => match value_bits(value_text(message), true) {
                None => None,
                Some(mb) => match console_hash_sha3_256(mb) {
                    None => Some(false),
                    Some(d) => console_ecdsa_verify_ethereum_digest(sb, kb, d),
                },
            },
        },
        spec_evaluate_ecdsa(ECDSAVerifyVariant::HashSha3_384, signature, key, message) == match signed_by(signature, key, false) {
            None => None,
            Some((sb, kb)) => match value_bits(value_text(message), false) {
                None => None,
                Some(mb) => match console_hash_sha3_384(mb) {
                    None => Some(false),
                    Some(d) => console_ecdsa_verify_digest(sb, kb, d),
                },
            },
        },
        spec_evaluate_ecdsa(ECDSAVerifyVariant::HashSha3_384Raw, signature, key, message) == match signed_by(signature, key, false) {
            None => None,
            Some((sb, kb)) => match value_bits(value_text(message), true) {
                None => None,
                Some(mb) => match console_hash_sha3_384(mb) {
                    None => Some(false),
                    Some(d) => console_ecdsa_verify_digest(sb, kb, d),
                },
            },
        },
        spec_evaluate_ecdsa(ECDSAVerifyVariant::HashSha3_384Eth, signature, key, message) == match signed_by(signature, key, true) {
            None => None,
            Some((sb, kb)) => match value_bits(value_text(message), true) {
                None => None,
                Some(mb) => match console_hash_sha3_384(mb) {
                    None => Some(false),
                    Some(d) => console_ecdsa_verify_ethereum_digest(sb, kb, d),
                },
            },
        },
        spec_evaluate_ecdsa(ECDSAVerifyVariant::HashSha3_512, signature, key, message) == match signed_by(signature, key, false) {
            None => None,
            Some((sb, kb)) => match value_bits(value_text(message), false) {
                None => None,
                Some(mb) => match console_hash_sha3_512(mb) {
                    None => Some(false),
                    Some(d) => console_ecdsa_verify_digest(sb, kb, d),
                },
            },
        },
        spec_evaluate_ecdsa(ECDSAVerifyVariant::HashSha3_512Raw, signature, key, message) == match signed_by(signature, key, false) {
            None => None,
            Some((sb, kb)) => match value_bits(value_text(message), true) {
                None => None,
                Some(mb) => match console_hash_sha3_512(mb) {
                    None => Some(false),
                    Some(d) => console_ecdsa_verify_digest(sb, kb, d),
                },
            },
        },
        spec_evaluate_ecdsa(ECDSAVerifyVariant::HashSha3_512Eth, signature, key, message) == match signed_by(signature, key, true) {
            None => None,
            Some((sb, kb)) => match value_bits(value_text(message), true) {
                None => None,
                Some(mb) => match console_hash_sha3_512(mb) {
                    None => Some(false),
                    Some(d) => console_ecdsa_verify_ethereum_digest(sb, kb, d),
                },
            },
        },
{
}

} // verus!
