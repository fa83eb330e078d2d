//! The instruction, command and program layer of an Aleo virtual machine.
use vstd::prelude::*;

pub mod bytes;
pub mod call_dynamic;
pub mod call_dynamic_bytes;
pub mod cast;
pub mod cast_bytes;
pub mod checksum;
pub mod command;
pub mod commit;
pub mod component;
pub mod console;
pub mod display;
pub mod ecdsa;
pub mod get_dynamic;
pub mod global_state;
pub mod hash;
pub mod instruction;
pub mod op_bytes;
pub mod operand;
pub mod plaintext;
pub mod plaintext_bits;
pub mod program;
pub mod scope;
pub mod serialize;
pub mod snark;
pub mod source;
pub mod syntax;
pub mod text;
pub mod types;
pub mod variants;

verus! {
} // verus!
