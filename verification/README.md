# synthesizer_program

The program layer of an Aleo virtual machine, written in Verus: how the text of a program
is read, checked and printed, the rules that its scopes (functions, closures, finalize
blocks, views and constructors) enforce as statements are added, and the parsing, printing,
byte encoding and type checking of the operations `call.dynamic`, `cast`, `commit`, `hash`,
`ecdsa.verify`, `snark.verify`, `serialize`, `deserialize` and the command `get.dynamic`, and
the bit layout in which `serialize` writes a plaintext value and `deserialize` reads it back.

Every function in `src/` carries a contract that Verus proves. Where the library relies on
the `snarkvm-console` and `snarkvm-synthesizer-snark` crates (the grammar of identifiers, literals, registers and types, their
byte encodings, the network's limits) or on `tiny-keccak` (SHA3-256), the call stands behind
a small wrapper in `src/console.rs` or `src/checksum.rs` whose contract states what the
outside function returns; most of those results are named by uninterpreted functions, so
that the contracts of the library speak of them exactly.

Layout of `src/`:

- `text.rs`, `syntax.rs`: characters, whitespace and the statements of a program's text.
- `operand.rs`, `bytes.rs`: operands, as text and as bytes.
- `plaintext.rs`, `types.rs`, `variants.rs`: plaintext and register types, the variants of
  the operations, and the output types of `snark.verify`, `ecdsa.verify` and `hash`.
- `instruction.rs`, `op_bytes.rs`: the grammar and the byte layout that the operations share.
- `call_dynamic.rs`, `cast.rs`, `commit.rs`, `hash.rs`, `ecdsa.rs`, `snark.rs`,
  `serialize.rs`, `get_dynamic.rs`, and `call_dynamic_bytes.rs`, `cast_bytes.rs`: the
  operations.
- `command.rs`: commands as the scopes classify them.
- `scope.rs`, `component.rs`, `display.rs`: scopes and the rules they keep.
- `program.rs`, `source.rs`, `checksum.rs`: programs, their text and their checksum.
- `plaintext_bits.rs`: plaintext values, and reading them from their bits (with or without
  metadata) given their type and the struct definitions it names; the `hash`, `commit`,
  `ecdsa.verify`, `snark.verify`, `serialize` and `deserialize` modules evaluate their
  instructions on such values.
- `global_state.rs`: the block state that finalize blocks read.
- `console.rs`: the calls into `snarkvm-console`.

The tests in `tests/` run the library on concrete programs and instructions.
