//! The `get.dynamic` command: reads a value from a mapping named at run time, as in
//! `get.dynamic r0 r1 r2[r3] into r4 as u8;` (the program's name, its network and the
//! mapping's name, then the key).
use vstd::prelude::*;

use crate::call_dynamic::{operands_view, spec_ws_operand, ws_operand};
use crate::console::{console_sanitize, console_whitespace};
use crate::instruction::{into_register_as, spec_into_register_as, spec_ws_operands_exact, ws_operands_exact};
use crate::op_bytes::{
    normal_operands, normal_plaintext_type, normal_register, read_ops_register_type, spec_ops_register_type_bytes,
    spec_read_ops_register_type, write_ops_register_type,
};
use crate::operand::{spec_operand_text, tail, Operand, OperandView, Register, RegisterView};
use crate::plaintext::{parse_plaintext_type, plaintext_type_text, spec_parse_plaintext_type};
use crate::syntax::{after, tail_of};
use crate::text::{chars_of, has_prefix, push_all, starts_with, string_of};
use crate::types::{PlaintextType, PlaintextTypeView};

verus! {

/// The mathematical value of a `get.dynamic` command.
pub ghost struct GetDynamicView {
    pub operands: Seq<OperandView>,
    pub destination: RegisterView,
    pub destination_type: PlaintextTypeView,
}

/// A `get.dynamic` command: its four operands are the program's name, the program's network,
/// the mapping's name and the key.
#[derive(Debug, PartialEq, Eq)]
pub struct GetDynamic {
    operands: Vec<Operand>,
    destination: Register,
    destination_type: PlaintextType,
}

impl View for GetDynamic {
    type V = GetDynamicView;

    closed spec fn view(&self) -> GetDynamicView {
        GetDynamicView {
            operands: operands_view(self.operands@),
            destination: self.destination@,
            destination_type: self.destination_type@,
        }
    }
}

impl GetDynamic {
    /// The command has its four operands.
    pub closed spec fn wf(&self) -> bool {
        self.operands@.len() == 4
    }

    /// The four operands.
    pub fn operands(&self) -> (r: &Vec<Operand>)
        ensures
            operands_view(r@) == self@.operands,
    {
        &self.operands
    }

    /// The operand that names the program.
    pub fn program_name_operand(&self) -> (r: &Operand)
        requires
            self.wf(),
        ensures
            r@ == self@.operands[0],
    {
        &self.operands[0]
    }

    /// The operand that names the program's network.
    pub fn program_network_operand(&self) -> (r: &Operand)
        requires
            self.wf(),
        ensures
            r@ == self@.operands[1],
    {
        &self.operands[1]
    }

    /// The operand that names the mapping.
    pub fn mapping_name_operand(&self) -> (r: &Operand)
        requires
            self.wf(),
        ensures
            r@ == self@.operands[2],
    {
        &self.operands[2]
    }

    /// The key.
    pub fn key_operand(&self) -> (r: &Operand)
        requires
            self.wf(),
        ensures
            r@ == self@.operands[3],
    {
        &self.operands[3]
    }

    /// The opcode.
    pub fn opcode(&self) -> (r: &'static str)
        ensures
            r@ == "get.dynamic"@,
    {
        "get.dynamic"
    }

    /// The destination registers: the one destination.
    pub fn destinations(&self) -> (r: Vec<Register>)
        ensures
            r@.len() == 1,
            r@[0]@ == self@.destination,
    {
        let mut v: Vec<Register> = Vec::new();
        v.push(self.destination.copy());
        v
    }

    /// The destination register.
    pub fn destination(&self) -> (r: &Register)
        ensures
            r@ == self@.destination,
    {
        &self.destination
    }

    /// The type of the value read.
    pub fn destination_type(&self) -> (r: &PlaintextType)
        ensures
            r@ == self@.destination_type,
    {
        &self.destination_type
    }
}

/// Whitespace, `[`, whitespace, the key, whitespace and `]`: the length of the rest and the key.
pub open spec fn spec_bracketed_key(t: Seq<char>) -> Option<(nat, OperandView)> {
    match console_whitespace(t) {
        Some(k0) => {
            let t0 = tail(t, k0);
            if !starts_with(t0, "["@) {
                None
            } else {
                let t1 = after(t0, "["@);
                match spec_ws_operand(t1) {
                    Some((k2, key)) => match console_whitespace(tail(t1, k2)) {
                        Some(k3) => {
                            let t3 = tail(tail(t1, k2), k3);
                            if starts_with(t3, "]"@) {
                                Some((after(t3, "]"@).len(), key))
                            } else {
                                None
                            }
                        },
                        None => None,
                    },
                    None => None,
                }
            }
        },
        None => None,
    }
}

fn bracketed_key(t: &[char]) -> (r: Option<(usize, Operand)>)
    ensures
        spec_bracketed_key(t@) == match r {
            Some((k, o)) => Some((k as nat, o@)),
            None => None::<(nat, OperandView)>,
        },
        r matches Some((k, _)) ==> k <= t@.len(),
{
    let k0 = match crate::console::whitespace(t) {
        Some(k) => k,
        None => return None,
    };
    let t0 = tail_of(t, k0);
    let open = chars_of("[");
    if !has_prefix(t0, &open) {
        return None;
    }
    let t1 = tail_of(t0, t0.len() - open.len());
    let (k2, key) = match ws_operand(t1) {
        Some(found) => found,
        None => return None,
    };
    let t2 = tail_of(t1, k2);
    let k3 = match crate::console::whitespace(t2) {
        Some(k) => k,
        None => return None,
    };
    let t3 = tail_of(t2, k3);
    let close = chars_of("]");
    if !has_prefix(t3, &close) {
        return None;
    }
    Some((t3.len() - close.len(), key))
}

/// A plaintext type, whitespace and `;`: the length of the rest and the type.
pub open spec fn spec_type_semicolon(t: Seq<char>) -> Option<(nat, PlaintextTypeView)> {
    match spec_parse_plaintext_type(t) {
        Some((k, ty)) => match console_whitespace(tail(t, k)) {
            Some(k2) => {
                let t2 = tail(tail(t, k), k2);
                if starts_with(t2, ";"@) {
                    Some((after(t2, ";"@).len(), ty))
                } else {
                    None
                }
            },
            None => None,
        },
        None => None,
    }
}

fn type_semicolon(t: &[char]) -> (r: Option<(usize, PlaintextType)>)
    ensures
        spec_type_semicolon(t@) == match r {
            Some((k, ty)) => Some((k as nat, ty@)),
            None => None::<(nat, PlaintextTypeView)>,
        },
        r matches Some((k, _)) ==> k <= t@.len(),
{
    let (k, ty) = match parse_plaintext_type(t) {
        Some(found) => found,
        None => return None,
    };
    let t1 = tail_of(t, k);
    let k2 = match crate::console::whitespace(t1) {
        Some(k) => k,
        None => return None,
    };
    let t2 = tail_of(t1, k2);
    let semicolon = chars_of(";");
    if !has_prefix(t2, &semicolon) {
        return None;
    }
    Some((t2.len() - semicolon.len(), ty))
}

/// What the `get.dynamic` parser reads from the start of the text: whitespace and comments,
/// the opcode, three operands, the key in square brackets, `into`, the destination register,
/// `as`, the destination type and `;`, with whitespace between them. The length of the rest
/// and the command.
pub open spec fn spec_parse_get_dynamic(t: Seq<char>) -> Option<(nat, GetDynamicView)> {
    match console_sanitize(t) {
        Some(k0) => {
            let t0 = tail(t, k0);
            if !starts_with(t0, "get.dynamic"@) {
                None
            } else {
                let t1 = after(t0, "get.dynamic"@);
                match spec_ws_operands_exact(t1, 3) {
                    Some((k2, names)) => match spec_bracketed_key(tail(t1, k2)) {
                        Some((k3, key)) => {
                            let t3 = tail(tail(t1, k2), k3);
                            match spec_into_register_as(t3) {
                                Some((k4, destination)) => match spec_type_semicolon(tail(t3, k4)) {
                                    Some((k5, destination_type)) => Some(
                                        (k5, GetDynamicView { operands: names.push(key), destination, destination_type }),
                                    ),
                                    None => None,
                                },
                                None => None,
                            }
                        },
                        None => None,
                    },
                    None => None,
                }
            }
        },
        None => None,
    }
}

/// The printed command.
pub open spec fn get_dynamic_text(g: GetDynamicView) -> Seq<char> {
    "get.dynamic "@ + spec_operand_text(g.operands[0]) + " "@ + spec_operand_text(g.operands[1]) + " "@
        + spec_operand_text(g.operands[2]) + "["@ + spec_operand_text(g.operands[3]) + "] into "@
        + g.destination.text + " as "@ + plaintext_type_text(g.destination_type) + ";"@
}

impl GetDynamic {
    /// Parses a `get.dynamic` command from the start of the characters.
    pub fn parse_chars(t: &[char]) -> (r: Option<(usize, GetDynamic)>)
        ensures
            spec_parse_get_dynamic(t@) == match r {
                Some((k, g)) => Some((k as nat, g@)),
                None => None::<(nat, GetDynamicView)>,
            },
            r matches Some((k, g)) ==> k <= t@.len() && g.wf(),
    {
        let k0 = match crate::console::sanitize(t) {
            Some(k) => k,
            None => return None,
        };
        let t0 = tail_of(t, k0);
        let op = chars_of("get.dynamic");
        if !has_prefix(t0, &op) {
            return None;
        }
        let t1 = tail_of(t0, t0.len() - op.len());
        let (k2, names) = match ws_operands_exact(t1, 3) {
            Some(found) => found,
            None => return None,
        };
        let (k3, key) = match bracketed_key(tail_of(t1, k2)) {
            Some(found) => found,
            None => return None,
        };
        let t3 = tail_of(tail_of(t1, k2), k3);
        let (k4, destination) = match into_register_as(t3) {
            Some(found) => found,
            None => return None,
        };
        let (k5, destination_type) = match type_semicolon(tail_of(t3, k4)) {
            Some(found) => found,
            None => return None,
        };
        let ghost names_view = operands_view(names@);
        let ghost key_view = key@;
        let mut operands = names;
        operands.push(key);
        assert(operands_view(operands@) =~= names_view.push(key_view));
        Some((k5, GetDynamic { operands, destination, destination_type }))
    }

    /// Parses a `get.dynamic` command from the start of the string: the rest of the string and
    /// the command.
    pub fn parse(string: &str) -> (r: Option<(String, GetDynamic)>)
        ensures
            match spec_parse_get_dynamic(string@) {
                Some((k, g)) => r matches Some((rest, x)) && rest@ == tail(string@, k) && x@ == g && x.wf(),
                None => r is None,
            },
    {
        let s = chars_of(string);
        match GetDynamic::parse_chars(&s) {
            Some((k, g)) => Some((string_of(tail_of(&s, k)), g)),
            None => None,
        }
    }

    /// Parses a `get.dynamic` command from the whole string.
    pub fn from_str(string: &str) -> (r: Option<GetDynamic>)
        ensures
            match spec_parse_get_dynamic(string@) {
                Some((k, g)) => if k == 0 {
                    r matches Some(x) && x@ == g
                } else {
                    r is None
                },
                None => r is None,
            },
    {
        let s = chars_of(string);
        match GetDynamic::parse_chars(&s) {
            Some((k, g)) => if k == 0 {
                Some(g)
            } else {
                None
            },
            None => None,
        }
    }

    /// Returns the printed command.
    pub fn to_string(&self) -> (r: String)
        requires
            self.wf(),
        ensures
            r@ == get_dynamic_text(self@),
    {
        let mut out: Vec<char> = Vec::new();
        push_all(&mut out, &chars_of("get.dynamic "));
        self.operands[0].write_text(&mut out);
        push_all(&mut out, &chars_of(" "));
        self.operands[1].write_text(&mut out);
        push_all(&mut out, &chars_of(" "));
        self.operands[2].write_text(&mut out);
        push_all(&mut out, &chars_of("["));
        self.operands[3].write_text(&mut out);
        push_all(&mut out, &chars_of("] into "));
        push_all(&mut out, &chars_of(self.destination.text.as_str()));
        push_all(&mut out, &chars_of(" as "));
        self.destination_type.write_text(&mut out);
        push_all(&mut out, &chars_of(";"));
        assert(out@ =~= get_dynamic_text(self@));
        string_of(&out)
    }
}

/// The bytes of a `get.dynamic` command: its four operands, its destination and the
/// destination's type.
pub open spec fn spec_get_dynamic_bytes(g: GetDynamicView) -> Option<Seq<u8>> {
    spec_ops_register_type_bytes(g.operands, g.destination, g.destination_type)
}

/// A `get.dynamic` command read from the bytes: the number of bytes left and the command.
pub open spec fn spec_read_get_dynamic(b: Seq<u8>) -> Option<(nat, GetDynamicView)> {
    match spec_read_ops_register_type(b, 4) {
        Some((k, operands, destination, destination_type)) => Some(
            (k, GetDynamicView { operands, destination, destination_type }),
        ),
        None => None,
    }
}

/// The command as console reads back what its parts hold.
pub open spec fn normal_get_dynamic(g: GetDynamicView) -> GetDynamicView {
    GetDynamicView {
        operands: normal_operands(g.operands),
        destination: normal_register(g.destination),
        destination_type: normal_plaintext_type(g.destination_type),
    }
}

impl GetDynamic {
    /// Writes the command as bytes: `None` where console cannot write what a part holds.
    /// Reading the bytes back gives the command as console reads back what it holds,
    /// whatever follows.
    pub fn write_le(&self) -> (r: Option<Vec<u8>>)
        requires
            self.wf(),
        ensures
            spec_get_dynamic_bytes(self@) == match r {
                Some(b) => Some(b@),
                None => None::<Seq<u8>>,
            },
            r matches Some(b) ==> forall|rest: Seq<u8>|
                #[trigger] spec_read_get_dynamic(b@ + rest) == Some((rest.len(), normal_get_dynamic(self@))),
    {
        let mut out: Vec<u8> = Vec::new();
        if !write_ops_register_type(&mut out, self.operands.as_slice(), &self.destination, &self.destination_type) {
            return None;
        }
        assert(out@ =~= spec_get_dynamic_bytes(self@)->0);
        Some(out)
    }

    /// Reads a `get.dynamic` command from the start of the bytes: the number of bytes left and
    /// the command.
    pub fn read_le(b: &[u8]) -> (r: Option<(usize, GetDynamic)>)
        ensures
            spec_read_get_dynamic(b@) == match r {
                Some((k, x)) => Some((k as nat, x@)),
                None => None::<(nat, GetDynamicView)>,
            },
            r matches Some((k, x)) ==> k <= b@.len() && x.wf(),
    {
        match read_ops_register_type(b, 4) {
            Some((k, operands, destination, destination_type)) => Some(
                (k, GetDynamic { operands, destination, destination_type }),
            ),
            None => None,
        }
    }
}

} // verus!
