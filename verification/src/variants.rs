//! The variants of the `hash`, `ecdsa.verify`, `commit`, `serialize`, `deserialize` and
//! `snark.verify` instructions: their positions in the encoding, opcodes and properties.
use vstd::prelude::*;

verus! {

/// The hash function that a `hash` instruction applies.
#[derive(Debug, Clone, Copy, PartialEq, Eq, Structural)]
pub enum HashVariant {
    HashBHP256,
    HashBHP512,
    HashBHP768,
    HashBHP1024,
    HashKeccak256,
    HashKeccak384,
    HashKeccak512,
    HashPED64,
    HashPED128,
    HashPSD2,
    HashPSD4,
    HashPSD8,
    HashSha3_256,
    HashSha3_384,
    HashSha3_512,
    HashManyPSD2,
    HashManyPSD4,
    HashManyPSD8,
    HashBHP256Raw,
    HashBHP512Raw,
    HashBHP768Raw,
    HashBHP1024Raw,
    HashKeccak256Raw,
    HashKeccak384Raw,
    HashKeccak512Raw,
    HashPED64Raw,
    HashPED128Raw,
    HashPSD2Raw,
    HashPSD4Raw,
    HashPSD8Raw,
    HashSha3_256Raw,
    HashSha3_384Raw,
    HashSha3_512Raw,
    HashKeccak256Native,
    HashKeccak256NativeRaw,
    HashKeccak384Native,
    HashKeccak384NativeRaw,
    HashKeccak512Native,
    HashKeccak512NativeRaw,
    HashSha3_256Native,
    HashSha3_256NativeRaw,
    HashSha3_384Native,
    HashSha3_384NativeRaw,
    HashSha3_512Native,
    HashSha3_512NativeRaw,
}

/// The number of hash variants.
pub const NUM_HASH_VARIANTS: u8 = 45;

impl HashVariant {
    /// The position of the variant in the instruction encoding.
    pub open spec fn spec_index(self) -> u8 {
        match self {
            HashVariant::HashBHP256 => 0,
            HashVariant::HashBHP512 => 1,
            HashVariant::HashBHP768 => 2,
            HashVariant::HashBHP1024 => 3,
            HashVariant::HashKeccak256 => 4,
            HashVariant::HashKeccak384 => 5,
            HashVariant::HashKeccak512 => 6,
            HashVariant::HashPED64 => 7,
            HashVariant::HashPED128 => 8,
            HashVariant::HashPSD2 => 9,
            HashVariant::HashPSD4 => 10,
            HashVariant::HashPSD8 => 11,
            HashVariant::HashSha3_256 => 12,
            HashVariant::HashSha3_384 => 13,
            HashVariant::HashSha3_512 => 14,
            HashVariant::HashManyPSD2 => 15,
            HashVariant::HashManyPSD4 => 16,
            HashVariant::HashManyPSD8 => 17,
            HashVariant::HashBHP256Raw => 18,
            HashVariant::HashBHP512Raw => 19,
            HashVariant::HashBHP768Raw => 20,
            HashVariant::HashBHP1024Raw => 21,
            HashVariant::HashKeccak256Raw => 22,
            HashVariant::HashKeccak384Raw => 23,
            HashVariant::HashKeccak512Raw => 24,
            HashVariant::HashPED64Raw => 25,
            HashVariant::HashPED128Raw => 26,
            HashVariant::HashPSD2Raw => 27,
            HashVariant::HashPSD4Raw => 28,
            HashVariant::HashPSD8Raw => 29,
            HashVariant::HashSha3_256Raw => 30,
            HashVariant::HashSha3_384Raw => 31,
            HashVariant::HashSha3_512Raw => 32,
            HashVariant::HashKeccak256Native => 33,
            HashVariant::HashKeccak256NativeRaw => 34,
            HashVariant::HashKeccak384Native => 35,
            HashVariant::HashKeccak384NativeRaw => 36,
            HashVariant::HashKeccak512Native => 37,
            HashVariant::HashKeccak512NativeRaw => 38,
            HashVariant::HashSha3_256Native => 39,
            HashVariant::HashSha3_256NativeRaw => 40,
            HashVariant::HashSha3_384Native => 41,
            HashVariant::HashSha3_384NativeRaw => 42,
            HashVariant::HashSha3_512Native => 43,
            HashVariant::HashSha3_512NativeRaw => 44,
        }
    }

    /// The variant at the given position of the instruction encoding.
    pub open spec fn spec_from_index(variant: u8) -> HashVariant
        recommends variant < 45,
    {
        if variant == 0 { HashVariant::HashBHP256 }
        else if variant == 1 { HashVariant::HashBHP512 }
        else if variant == 2 { HashVariant::HashBHP768 }
        else if variant == 3 { HashVariant::HashBHP1024 }
        else if variant == 4 { HashVariant::HashKeccak256 }
        else if variant == 5 { HashVariant::HashKeccak384 }
        else if variant == 6 { HashVariant::HashKeccak512 }
        else if variant == 7 { HashVariant::HashPED64 }
        else if variant == 8 { HashVariant::HashPED128 }
        else if variant == 9 { HashVariant::HashPSD2 }
        else if variant == 10 { HashVariant::HashPSD4 }
        else if variant == 11 { HashVariant::HashPSD8 }
        else if variant == 12 { HashVariant::HashSha3_256 }
        else if variant == 13 { HashVariant::HashSha3_384 }
        else if variant == 14 { HashVariant::HashSha3_512 }
        else if variant == 15 { HashVariant::HashManyPSD2 }
        else if variant == 16 { HashVariant::HashManyPSD4 }
        else if variant == 17 { HashVariant::HashManyPSD8 }
        else if variant == 18 { HashVariant::HashBHP256Raw }
        else if variant == 19 { HashVariant::HashBHP512Raw }
        else if variant == 20 { HashVariant::HashBHP768Raw }
        else if variant == 21 { HashVariant::HashBHP1024Raw }
        else if variant == 22 { HashVariant::HashKeccak256Raw }
        else if variant == 23 { HashVariant::HashKeccak384Raw }
        else if variant == 24 { HashVariant::HashKeccak512Raw }
        else if variant == 25 { HashVariant::HashPED64Raw }
        else if variant == 26 { HashVariant::HashPED128Raw }
        else if variant == 27 { HashVariant::HashPSD2Raw }
        else if variant == 28 { HashVariant::HashPSD4Raw }
        else if variant == 29 { HashVariant::HashPSD8Raw }
        else if variant == 30 { HashVariant::HashSha3_256Raw }
        else if variant == 31 { HashVariant::HashSha3_384Raw }
        else if variant == 32 { HashVariant::HashSha3_512Raw }
        else if variant == 33 { HashVariant::HashKeccak256Native }
        else if variant == 34 { HashVariant::HashKeccak256NativeRaw }
        else if variant == 35 { HashVariant::HashKeccak384Native }
        else if variant == 36 { HashVariant::HashKeccak384NativeRaw }
        else if variant == 37 { HashVariant::HashKeccak512Native }
        else if variant == 38 { HashVariant::HashKeccak512NativeRaw }
        else if variant == 39 { HashVariant::HashSha3_256Native }
        else if variant == 40 { HashVariant::HashSha3_256NativeRaw }
        else if variant == 41 { HashVariant::HashSha3_384Native }
        else if variant == 42 { HashVariant::HashSha3_384NativeRaw }
        else if variant == 43 { HashVariant::HashSha3_512Native }
        else { HashVariant::HashSha3_512NativeRaw }
    }

    /// The opcode text of the variant.
    pub open spec fn spec_opcode(self) -> Seq<char> {
        match self {
            HashVariant::HashBHP256 => "hash.bhp256"@,
            HashVariant::HashBHP512 => "hash.bhp512"@,
            HashVariant::HashBHP768 => "hash.bhp768"@,
            HashVariant::HashBHP1024 => "hash.bhp1024"@,
            HashVariant::HashKeccak256 => "hash.keccak256"@,
            HashVariant::HashKeccak384 => "hash.keccak384"@,
            HashVariant::HashKeccak512 => "hash.keccak512"@,
            HashVariant::HashPED64 => "hash.ped64"@,
            HashVariant::HashPED128 => "hash.ped128"@,
            HashVariant::HashPSD2 => "hash.psd2"@,
            HashVariant::HashPSD4 => "hash.psd4"@,
            HashVariant::HashPSD8 => "hash.psd8"@,
            HashVariant::HashSha3_256 => "hash.sha3_256"@,
            HashVariant::HashSha3_384 => "hash.sha3_384"@,
            HashVariant::HashSha3_512 => "hash.sha3_512"@,
            HashVariant::HashManyPSD2 => "hash_many.psd2"@,
            HashVariant::HashManyPSD4 => "hash_many.psd4"@,
            HashVariant::HashManyPSD8 => "hash_many.psd8"@,
            HashVariant::HashBHP256Raw => "hash.bhp256.raw"@,
            HashVariant::HashBHP512Raw => "hash.bhp512.raw"@,
            HashVariant::HashBHP768Raw => "hash.bhp768.raw"@,
            HashVariant::HashBHP1024Raw => "hash.bhp1024.raw"@,
            HashVariant::HashKeccak256Raw => "hash.keccak256.raw"@,
            HashVariant::HashKeccak384Raw => "hash.keccak384.raw"@,
            HashVariant::HashKeccak512Raw => "hash.keccak512.raw"@,
            HashVariant::HashPED64Raw => "hash.ped64.raw"@,
            HashVariant::HashPED128Raw => "hash.ped128.raw"@,
            HashVariant::HashPSD2Raw => "hash.psd2.raw"@,
            HashVariant::HashPSD4Raw => "hash.psd4.raw"@,
            HashVariant::HashPSD8Raw => "hash.psd8.raw"@,
            HashVariant::HashSha3_256Raw => "hash.sha3_256.raw"@,
            HashVariant::HashSha3_384Raw => "hash.sha3_384.raw"@,
            HashVariant::HashSha3_512Raw => "hash.sha3_512.raw"@,
            HashVariant::HashKeccak256Native => "hash.keccak256.native"@,
            HashVariant::HashKeccak256NativeRaw => "hash.keccak256.native.raw"@,
            HashVariant::HashKeccak384Native => "hash.keccak384.native"@,
            HashVariant::HashKeccak384NativeRaw => "hash.keccak384.native.raw"@,
            HashVariant::HashKeccak512Native => "hash.keccak512.native"@,
            HashVariant::HashKeccak512NativeRaw => "hash.keccak512.native.raw"@,
            HashVariant::HashSha3_256Native => "hash.sha3_256.native"@,
            HashVariant::HashSha3_256NativeRaw => "hash.sha3_256.native.raw"@,
            HashVariant::HashSha3_384Native => "hash.sha3_384.native"@,
            HashVariant::HashSha3_384NativeRaw => "hash.sha3_384.native.raw"@,
            HashVariant::HashSha3_512Native => "hash.sha3_512.native"@,
            HashVariant::HashSha3_512NativeRaw => "hash.sha3_512.native.raw"@,
        }
    }

    /// Whether the variant hashes input whose size in bits must be a multiple of eight.
    pub open spec fn spec_requires_byte_alignment(self) -> bool {
        match self {
            HashVariant::HashBHP256 => false,
            HashVariant::HashBHP512 => false,
            HashVariant::HashBHP768 => false,
            HashVariant::HashBHP1024 => false,
            HashVariant::HashKeccak256 => false,
            HashVariant::HashKeccak384 => false,
            HashVariant::HashKeccak512 => false,
            HashVariant::HashPED64 => false,
            HashVariant::HashPED128 => false,
            HashVariant::HashPSD2 => false,
            HashVariant::HashPSD4 => false,
            HashVariant::HashPSD8 => false,
            HashVariant::HashSha3_256 => false,
            HashVariant::HashSha3_384 => false,
            HashVariant::HashSha3_512 => false,
            HashVariant::HashManyPSD2 => false,
            HashVariant::HashManyPSD4 => false,
            HashVariant::HashManyPSD8 => false,
            HashVariant::HashBHP256Raw => false,
            HashVariant::HashBHP512Raw => false,
            HashVariant::HashBHP768Raw => false,
            HashVariant::HashBHP1024Raw => false,
            HashVariant::HashKeccak256Raw => true,
            HashVariant::HashKeccak384Raw => true,
            HashVariant::HashKeccak512Raw => true,
            HashVariant::HashPED64Raw => false,
            HashVariant::HashPED128Raw => false,
            HashVariant::HashPSD2Raw => false,
            HashVariant::HashPSD4Raw => false,
            HashVariant::HashPSD8Raw => false,
            HashVariant::HashSha3_256Raw => true,
            HashVariant::HashSha3_384Raw => true,
            HashVariant::HashSha3_512Raw => true,
            HashVariant::HashKeccak256Native => true,
            HashVariant::HashKeccak256NativeRaw => true,
            HashVariant::HashKeccak384Native => true,
            HashVariant::HashKeccak384NativeRaw => true,
            HashVariant::HashKeccak512Native => true,
            HashVariant::HashKeccak512NativeRaw => true,
            HashVariant::HashSha3_256Native => true,
            HashVariant::HashSha3_256NativeRaw => true,
            HashVariant::HashSha3_384Native => true,
            HashVariant::HashSha3_384NativeRaw => true,
            HashVariant::HashSha3_512Native => true,
            HashVariant::HashSha3_512NativeRaw => true,
        }
    }

    /// Whether the variant hashes the raw bits of its input.
    pub open spec fn spec_is_raw(self) -> bool {
        match self {
            HashVariant::HashBHP256 => false,
            HashVariant::HashBHP512 => false,
            HashVariant::HashBHP768 => false,
            HashVariant::HashBHP1024 => false,
            HashVariant::HashKeccak256 => false,
            HashVariant::HashKeccak384 => false,
            HashVariant::HashKeccak512 => false,
            HashVariant::HashPED64 => false,
            HashVariant::HashPED128 => false,
            HashVariant::HashPSD2 => false,
            HashVariant::HashPSD4 => false,
            HashVariant::HashPSD8 => false,
            HashVariant::HashSha3_256 => false,
            HashVariant::HashSha3_384 => false,
            HashVariant::HashSha3_512 => false,
            HashVariant::HashManyPSD2 => false,
            HashVariant::HashManyPSD4 => false,
            HashVariant::HashManyPSD8 => false,
            HashVariant::HashBHP256Raw => true,
            HashVariant::HashBHP512Raw => true,
            HashVariant::HashBHP768Raw => true,
            HashVariant::HashBHP1024Raw => true,
            HashVariant::HashKeccak256Raw => true,
            HashVariant::HashKeccak384Raw => true,
            HashVariant::HashKeccak512Raw => true,
            HashVariant::HashPED64Raw => true,
            HashVariant::HashPED128Raw => true,
            HashVariant::HashPSD2Raw => true,
            HashVariant::HashPSD4Raw => true,
            HashVariant::HashPSD8Raw => true,
            HashVariant::HashSha3_256Raw => true,
            HashVariant::HashSha3_384Raw => true,
            HashVariant::HashSha3_512Raw => true,
            HashVariant::HashKeccak256Native => false,
            HashVariant::HashKeccak256NativeRaw => true,
            HashVariant::HashKeccak384Native => false,
            HashVariant::HashKeccak384NativeRaw => true,
            HashVariant::HashKeccak512Native => false,
            HashVariant::HashKeccak512NativeRaw => true,
            HashVariant::HashSha3_256Native => false,
            HashVariant::HashSha3_256NativeRaw => true,
            HashVariant::HashSha3_384Native => false,
            HashVariant::HashSha3_384NativeRaw => true,
            HashVariant::HashSha3_512Native => false,
            HashVariant::HashSha3_512NativeRaw => true,
        }
    }

    /// The number of operands that an instruction of this variant takes.
    pub open spec fn spec_expected_num_operands(self) -> usize {
        match self {
            HashVariant::HashManyPSD2 | HashVariant::HashManyPSD4 | HashVariant::HashManyPSD8 => 2,
            _ => 1,
        }
    }

    /// Returns the variant at the given position of the instruction encoding.
    pub fn new(variant: u8) -> (r: HashVariant)
        requires
            variant < 45,
        ensures
            r == HashVariant::spec_from_index(variant),
            r.spec_index() == variant,
    {
        match variant {
            0 => HashVariant::HashBHP256,
            1 => HashVariant::HashBHP512,
            2 => HashVariant::HashBHP768,
            3 => HashVariant::HashBHP1024,
            4 => HashVariant::HashKeccak256,
            5 => HashVariant::HashKeccak384,
            6 => HashVariant::HashKeccak512,
            7 => HashVariant::HashPED64,
            8 => HashVariant::HashPED128,
            9 => HashVariant::HashPSD2,
            10 => HashVariant::HashPSD4,
            11 => HashVariant::HashPSD8,
            12 => HashVariant::HashSha3_256,
            13 => HashVariant::HashSha3_384,
            14 => HashVariant::HashSha3_512,
            15 => HashVariant::HashManyPSD2,
            16 => HashVariant::HashManyPSD4,
            17 => HashVariant::HashManyPSD8,
            18 => HashVariant::HashBHP256Raw,
            19 => HashVariant::HashBHP512Raw,
            20 => HashVariant::HashBHP768Raw,
            21 => HashVariant::HashBHP1024Raw,
            22 => HashVariant::HashKeccak256Raw,
            23 => HashVariant::HashKeccak384Raw,
            24 => HashVariant::HashKeccak512Raw,
            25 => HashVariant::HashPED64Raw,
            26 => HashVariant::HashPED128Raw,
            27 => HashVariant::HashPSD2Raw,
            28 => HashVariant::HashPSD4Raw,
            29 => HashVariant::HashPSD8Raw,
            30 => HashVariant::HashSha3_256Raw,
            31 => HashVariant::HashSha3_384Raw,
            32 => HashVariant::HashSha3_512Raw,
            33 => HashVariant::HashKeccak256Native,
            34 => HashVariant::HashKeccak256NativeRaw,
            35 => HashVariant::HashKeccak384Native,
            36 => HashVariant::HashKeccak384NativeRaw,
            37 => HashVariant::HashKeccak512Native,
            38 => HashVariant::HashKeccak512NativeRaw,
            39 => HashVariant::HashSha3_256Native,
            40 => HashVariant::HashSha3_256NativeRaw,
            41 => HashVariant::HashSha3_384Native,
            42 => HashVariant::HashSha3_384NativeRaw,
            43 => HashVariant::HashSha3_512Native,
            _ => HashVariant::HashSha3_512NativeRaw,
        }
    }

    /// Returns the position of the variant in the instruction encoding.
    pub fn index(&self) -> (r: u8)
        ensures
            r == self.spec_index(),
    {
        match self {
            HashVariant::HashBHP256 => 0,
            HashVariant::HashBHP512 => 1,
            HashVariant::HashBHP768 => 2,
            HashVariant::HashBHP1024 => 3,
            HashVariant::HashKeccak256 => 4,
            HashVariant::HashKeccak384 => 5,
            HashVariant::HashKeccak512 => 6,
            HashVariant::HashPED64 => 7,
            HashVariant::HashPED128 => 8,
            HashVariant::HashPSD2 => 9,
            HashVariant::HashPSD4 => 10,
            HashVariant::HashPSD8 => 11,
            HashVariant::HashSha3_256 => 12,
            HashVariant::HashSha3_384 => 13,
            HashVariant::HashSha3_512 => 14,
            HashVariant::HashManyPSD2 => 15,
            HashVariant::HashManyPSD4 => 16,
            HashVariant::HashManyPSD8 => 17,
            HashVariant::HashBHP256Raw => 18,
            HashVariant::HashBHP512Raw => 19,
            HashVariant::HashBHP768Raw => 20,
            HashVariant::HashBHP1024Raw => 21,
            HashVariant::HashKeccak256Raw => 22,
            HashVariant::HashKeccak384Raw => 23,
            HashVariant::HashKeccak512Raw => 24,
            HashVariant::HashPED64Raw => 25,
            HashVariant::HashPED128Raw => 26,
            HashVariant::HashPSD2Raw => 27,
            HashVariant::HashPSD4Raw => 28,
            HashVariant::HashPSD8Raw => 29,
            HashVariant::HashSha3_256Raw => 30,
            HashVariant::HashSha3_384Raw => 31,
            HashVariant::HashSha3_512Raw => 32,
            HashVariant::HashKeccak256Native => 33,
            HashVariant::HashKeccak256NativeRaw => 34,
            HashVariant::HashKeccak384Native => 35,
            HashVariant::HashKeccak384NativeRaw => 36,
            HashVariant::HashKeccak512Native => 37,
            HashVariant::HashKeccak512NativeRaw => 38,
            HashVariant::HashSha3_256Native => 39,
            HashVariant::HashSha3_256NativeRaw => 40,
            HashVariant::HashSha3_384Native => 41,
            HashVariant::HashSha3_384NativeRaw => 42,
            HashVariant::HashSha3_512Native => 43,
            HashVariant::HashSha3_512NativeRaw => 44,
        }
    }

    /// Returns the opcode text of the variant.
    pub fn opcode(&self) -> (r: &'static str)
        ensures
            r@ == self.spec_opcode(),
    {
        match self {
            HashVariant::HashBHP256 => "hash.bhp256",
            HashVariant::HashBHP512 => "hash.bhp512",
            HashVariant::HashBHP768 => "hash.bhp768",
            HashVariant::HashBHP1024 => "hash.bhp1024",
            HashVariant::HashKeccak256 => "hash.keccak256",
            HashVariant::HashKeccak384 => "hash.keccak384",
            HashVariant::HashKeccak512 => "hash.keccak512",
            HashVariant::HashPED64 => "hash.ped64",
            HashVariant::HashPED128 => "hash.ped128",
            HashVariant::HashPSD2 => "hash.psd2",
            HashVariant::HashPSD4 => "hash.psd4",
            HashVariant::HashPSD8 => "hash.psd8",
            HashVariant::HashSha3_256 => "hash.sha3_256",
            HashVariant::HashSha3_384 => "hash.sha3_384",
            HashVariant::HashSha3_512 => "hash.sha3_512",
            HashVariant::HashManyPSD2 => "hash_many.psd2",
            HashVariant::HashManyPSD4 => "hash_many.psd4",
            HashVariant::HashManyPSD8 => "hash_many.psd8",
            HashVariant::HashBHP256Raw => "hash.bhp256.raw",
            HashVariant::HashBHP512Raw => "hash.bhp512.raw",
            HashVariant::HashBHP768Raw => "hash.bhp768.raw",
            HashVariant::HashBHP1024Raw => "hash.bhp1024.raw",
            HashVariant::HashKeccak256Raw => "hash.keccak256.raw",
            HashVariant::HashKeccak384Raw => "hash.keccak384.raw",
            HashVariant::HashKeccak512Raw => "hash.keccak512.raw",
            HashVariant::HashPED64Raw => "hash.ped64.raw",
            HashVariant::HashPED128Raw => "hash.ped128.raw",
            HashVariant::HashPSD2Raw => "hash.psd2.raw",
            HashVariant::HashPSD4Raw => "hash.psd4.raw",
            HashVariant::HashPSD8Raw => "hash.psd8.raw",
            HashVariant::HashSha3_256Raw => "hash.sha3_256.raw",
            HashVariant::HashSha3_384Raw => "hash.sha3_384.raw",
            HashVariant::HashSha3_512Raw => "hash.sha3_512.raw",
            HashVariant::HashKeccak256Native => "hash.keccak256.native",
            HashVariant::HashKeccak256NativeRaw => "hash.keccak256.native.raw",
            HashVariant::HashKeccak384Native => "hash.keccak384.native",
            HashVariant::HashKeccak384NativeRaw => "hash.keccak384.native.raw",
            HashVariant::HashKeccak512Native => "hash.keccak512.native",
            HashVariant::HashKeccak512NativeRaw => "hash.keccak512.native.raw",
            HashVariant::HashSha3_256Native => "hash.sha3_256.native",
            HashVariant::HashSha3_256NativeRaw => "hash.sha3_256.native.raw",
            HashVariant::HashSha3_384Native => "hash.sha3_384.native",
            HashVariant::HashSha3_384NativeRaw => "hash.sha3_384.native.raw",
            HashVariant::HashSha3_512Native => "hash.sha3_512.native",
            HashVariant::HashSha3_512NativeRaw => "hash.sha3_512.native.raw",
        }
    }

    /// Returns `true` if the variant requires its input to be byte-aligned.
    pub fn requires_byte_alignment(&self) -> (r: bool)
        ensures
            r == self.spec_requires_byte_alignment(),
    {
        match self {
            HashVariant::HashBHP256 => false,
            HashVariant::HashBHP512 => false,
            HashVariant::HashBHP768 => false,
            HashVariant::HashBHP1024 => false,
            HashVariant::HashKeccak256 => false,
            HashVariant::HashKeccak384 => false,
            HashVariant::HashKeccak512 => false,
            HashVariant::HashPED64 => false,
            HashVariant::HashPED128 => false,
            HashVariant::HashPSD2 => false,
            HashVariant::HashPSD4 => false,
            HashVariant::HashPSD8 => false,
            HashVariant::HashSha3_256 => false,
            HashVariant::HashSha3_384 => false,
            HashVariant::HashSha3_512 => false,
            HashVariant::HashManyPSD2 => false,
            HashVariant::HashManyPSD4 => false,
            HashVariant::HashManyPSD8 => false,
            HashVariant::HashBHP256Raw => false,
            HashVariant::HashBHP512Raw => false,
            HashVariant::HashBHP768Raw => false,
            HashVariant::HashBHP1024Raw => false,
            HashVariant::HashKeccak256Raw => true,
            HashVariant::HashKeccak384Raw => true,
            HashVariant::HashKeccak512Raw => true,
            HashVariant::HashPED64Raw => false,
            HashVariant::HashPED128Raw => false,
            HashVariant::HashPSD2Raw => false,
            HashVariant::HashPSD4Raw => false,
            HashVariant::HashPSD8Raw => false,
            HashVariant::HashSha3_256Raw => true,
            HashVariant::HashSha3_384Raw => true,
            HashVariant::HashSha3_512Raw => true,
            HashVariant::HashKeccak256Native => true,
            HashVariant::HashKeccak256NativeRaw => true,
            HashVariant::HashKeccak384Native => true,
            HashVariant::HashKeccak384NativeRaw => true,
            HashVariant::HashKeccak512Native => true,
            HashVariant::HashKeccak512NativeRaw => true,
            HashVariant::HashSha3_256Native => true,
            HashVariant::HashSha3_256NativeRaw => true,
            HashVariant::HashSha3_384Native => true,
            HashVariant::HashSha3_384NativeRaw => true,
            HashVariant::HashSha3_512Native => true,
            HashVariant::HashSha3_512NativeRaw => true,
        }
    }

    /// Returns `true` if the variant uses raw bits.
    pub fn is_raw(&self) -> (r: bool)
        ensures
            r == self.spec_is_raw(),
    {
        match self {
            HashVariant::HashBHP256 => false,
            HashVariant::HashBHP512 => false,
            HashVariant::HashBHP768 => false,
            HashVariant::HashBHP1024 => false,
            HashVariant::HashKeccak256 => false,
            HashVariant::HashKeccak384 => false,
            HashVariant::HashKeccak512 => false,
            HashVariant::HashPED64 => false,
            HashVariant::HashPED128 => false,
            HashVariant::HashPSD2 => false,
            HashVariant::HashPSD4 => false,
            HashVariant::HashPSD8 => false,
            HashVariant::HashSha3_256 => false,
            HashVariant::HashSha3_384 => false,
            HashVariant::HashSha3_512 => false,
            HashVariant::HashManyPSD2 => false,
            HashVariant::HashManyPSD4 => false,
            HashVariant::HashManyPSD8 => false,
            HashVariant::HashBHP256Raw => true,
            HashVariant::HashBHP512Raw => true,
            HashVariant::HashBHP768Raw => true,
            HashVariant::HashBHP1024Raw => true,
            HashVariant::HashKeccak256Raw => true,
            HashVariant::HashKeccak384Raw => true,
            HashVariant::HashKeccak512Raw => true,
            HashVariant::HashPED64Raw => true,
            HashVariant::HashPED128Raw => true,
            HashVariant::HashPSD2Raw => true,
            HashVariant::HashPSD4Raw => true,
            HashVariant::HashPSD8Raw => true,
            HashVariant::HashSha3_256Raw => true,
            HashVariant::HashSha3_384Raw => true,
            HashVariant::HashSha3_512Raw => true,
            HashVariant::HashKeccak256Native => false,
            HashVariant::HashKeccak256NativeRaw => true,
            HashVariant::HashKeccak384Native => false,
            HashVariant::HashKeccak384NativeRaw => true,
            HashVariant::HashKeccak512Native => false,
            HashVariant::HashKeccak512NativeRaw => true,
            HashVariant::HashSha3_256Native => false,
            HashVariant::HashSha3_256NativeRaw => true,
            HashVariant::HashSha3_384Native => false,
            HashVariant::HashSha3_384NativeRaw => true,
            HashVariant::HashSha3_512Native => false,
            HashVariant::HashSha3_512NativeRaw => true,
        }
    }

    /// Returns the expected number of operands given the variant.
    pub fn expected_num_operands(&self) -> (r: usize)
        ensures
            r == self.spec_expected_num_operands(),
    {
        match self {
            HashVariant::HashManyPSD2 | HashVariant::HashManyPSD4 | HashVariant::HashManyPSD8 => 2,
            _ => 1,
        }
    }

}

/// The digest and public-key form that an `ecdsa.verify` instruction uses.
#[derive(Debug, Clone, Copy, PartialEq, Eq, Structural)]
pub enum ECDSAVerifyVariant {
    Digest,
    DigestEth,
    HashKeccak256,
    HashKeccak256Raw,
    HashKeccak256Eth,
    HashKeccak384,
    HashKeccak384Raw,
    HashKeccak384Eth,
    HashKeccak512,
    HashKeccak512Raw,
    HashKeccak512Eth,
    HashSha3_256,
    HashSha3_256Raw,
    HashSha3_256Eth,
    HashSha3_384,
    HashSha3_384Raw,
    HashSha3_384Eth,
    HashSha3_512,
    HashSha3_512Raw,
    HashSha3_512Eth,
}

impl ECDSAVerifyVariant {
    /// The position of the variant in the instruction encoding.
    pub open spec fn spec_index(self) -> u8 {
        match self {
            ECDSAVerifyVariant::Digest => 0,
            ECDSAVerifyVariant::DigestEth => 1,
            ECDSAVerifyVariant::HashKeccak256 => 2,
            ECDSAVerifyVariant::HashKeccak256Raw => 3,
            ECDSAVerifyVariant::HashKeccak256Eth => 4,
            ECDSAVerifyVariant::HashKeccak384 => 5,
            ECDSAVerifyVariant::HashKeccak384Raw => 6,
            ECDSAVerifyVariant::HashKeccak384Eth => 7,
            ECDSAVerifyVariant::HashKeccak512 => 8,
            ECDSAVerifyVariant::HashKeccak512Raw => 9,
            ECDSAVerifyVariant::HashKeccak512Eth => 10,
            ECDSAVerifyVariant::HashSha3_256 => 11,
            ECDSAVerifyVariant::HashSha3_256Raw => 12,
            ECDSAVerifyVariant::HashSha3_256Eth => 13,
            ECDSAVerifyVariant::HashSha3_384 => 14,
            ECDSAVerifyVariant::HashSha3_384Raw => 15,
            ECDSAVerifyVariant::HashSha3_384Eth => 16,
            ECDSAVerifyVariant::HashSha3_512 => 17,
            ECDSAVerifyVariant::HashSha3_512Raw => 18,
            ECDSAVerifyVariant::HashSha3_512Eth => 19,
        }
    }

    /// The variant at the given position of the instruction encoding.
    pub open spec fn spec_from_index(variant: u8) -> ECDSAVerifyVariant
        recommends variant < 20,
    {
        if variant == 0 { ECDSAVerifyVariant::Digest }
        else if variant == 1 { ECDSAVerifyVariant::DigestEth }
        else if variant == 2 { ECDSAVerifyVariant::HashKeccak256 }
        else if variant == 3 { ECDSAVerifyVariant::HashKeccak256Raw }
        else if variant == 4 { ECDSAVerifyVariant::HashKeccak256Eth }
        else if variant == 5 { ECDSAVerifyVariant::HashKeccak384 }
        else if variant == 6 { ECDSAVerifyVariant::HashKeccak384Raw }
        else if variant == 7 { ECDSAVerifyVariant::HashKeccak384Eth }
        else if variant == 8 { ECDSAVerifyVariant::HashKeccak512 }
        else if variant == 9 { ECDSAVerifyVariant::HashKeccak512Raw }
        else if variant == 10 { ECDSAVerifyVariant::HashKeccak512Eth }
        else if variant == 11 { ECDSAVerifyVariant::HashSha3_256 }
        else if variant == 12 { ECDSAVerifyVariant::HashSha3_256Raw }
        else if variant == 13 { ECDSAVerifyVariant::HashSha3_256Eth }
        else if variant == 14 { ECDSAVerifyVariant::HashSha3_384 }
        else if variant == 15 { ECDSAVerifyVariant::HashSha3_384Raw }
        else if variant == 16 { ECDSAVerifyVariant::HashSha3_384Eth }
        else if variant == 17 { ECDSAVerifyVariant::HashSha3_512 }
        else if variant == 18 { ECDSAVerifyVariant::HashSha3_512Raw }
        else { ECDSAVerifyVariant::HashSha3_512Eth }
    }

    /// The opcode text of the variant.
    pub open spec fn spec_opcode(self) -> Seq<char> {
        match self {
            ECDSAVerifyVariant::Digest => "ecdsa.verify.digest"@,
            ECDSAVerifyVariant::DigestEth => "ecdsa.verify.digest.eth"@,
            ECDSAVerifyVariant::HashKeccak256 => "ecdsa.verify.keccak256"@,
            ECDSAVerifyVariant::HashKeccak256Raw => "ecdsa.verify.keccak256.raw"@,
            ECDSAVerifyVariant::HashKeccak256Eth => "ecdsa.verify.keccak256.eth"@,
            ECDSAVerifyVariant::HashKeccak384 => "ecdsa.verify.keccak384"@,
            ECDSAVerifyVariant::HashKeccak384Raw => "ecdsa.verify.keccak384.raw"@,
            ECDSAVerifyVariant::HashKeccak384Eth => "ecdsa.verify.keccak384.eth"@,
            ECDSAVerifyVariant::HashKeccak512 => "ecdsa.verify.keccak512"@,
            ECDSAVerifyVariant::HashKeccak512Raw => "ecdsa.verify.keccak512.raw"@,
            ECDSAVerifyVariant::HashKeccak512Eth => "ecdsa.verify.keccak512.eth"@,
            ECDSAVerifyVariant::HashSha3_256 => "ecdsa.verify.sha3_256"@,
            ECDSAVerifyVariant::HashSha3_256Raw => "ecdsa.verify.sha3_256.raw"@,
            ECDSAVerifyVariant::HashSha3_256Eth => "ecdsa.verify.sha3_256.eth"@,
            ECDSAVerifyVariant::HashSha3_384 => "ecdsa.verify.sha3_384"@,
            ECDSAVerifyVariant::HashSha3_384Raw => "ecdsa.verify.sha3_384.raw"@,
            ECDSAVerifyVariant::HashSha3_384Eth => "ecdsa.verify.sha3_384.eth"@,
            ECDSAVerifyVariant::HashSha3_512 => "ecdsa.verify.sha3_512"@,
            ECDSAVerifyVariant::HashSha3_512Raw => "ecdsa.verify.sha3_512.raw"@,
            ECDSAVerifyVariant::HashSha3_512Eth => "ecdsa.verify.sha3_512.eth"@,
        }
    }

    /// Whether the message must be byte-aligned.
    pub open spec fn spec_requires_byte_alignment(self) -> bool {
        match self {
            ECDSAVerifyVariant::Digest => true,
            ECDSAVerifyVariant::DigestEth => true,
            ECDSAVerifyVariant::HashKeccak256 => false,
            ECDSAVerifyVariant::HashKeccak256Raw => true,
            ECDSAVerifyVariant::HashKeccak256Eth => true,
            ECDSAVerifyVariant::HashKeccak384 => false,
            ECDSAVerifyVariant::HashKeccak384Raw => true,
            ECDSAVerifyVariant::HashKeccak384Eth => true,
            ECDSAVerifyVariant::HashKeccak512 => false,
            ECDSAVerifyVariant::HashKeccak512Raw => true,
            ECDSAVerifyVariant::HashKeccak512Eth => true,
            ECDSAVerifyVariant::HashSha3_256 => false,
            ECDSAVerifyVariant::HashSha3_256Raw => true,
            ECDSAVerifyVariant::HashSha3_256Eth => true,
            ECDSAVerifyVariant::HashSha3_384 => false,
            ECDSAVerifyVariant::HashSha3_384Raw => true,
            ECDSAVerifyVariant::HashSha3_384Eth => true,
            ECDSAVerifyVariant::HashSha3_512 => false,
            ECDSAVerifyVariant::HashSha3_512Raw => true,
            ECDSAVerifyVariant::HashSha3_512Eth => true,
        }
    }

    /// Whether the variant reads the raw bits of the message.
    pub open spec fn spec_is_raw(self) -> bool {
        match self {
            ECDSAVerifyVariant::Digest => true,
            ECDSAVerifyVariant::DigestEth => true,
            ECDSAVerifyVariant::HashKeccak256 => false,
            ECDSAVerifyVariant::HashKeccak256Raw => true,
            ECDSAVerifyVariant::HashKeccak256Eth => true,
            ECDSAVerifyVariant::HashKeccak384 => false,
            ECDSAVerifyVariant::HashKeccak384Raw => true,
            ECDSAVerifyVariant::HashKeccak384Eth => true,
            ECDSAVerifyVariant::HashKeccak512 => false,
            ECDSAVerifyVariant::HashKeccak512Raw => true,
            ECDSAVerifyVariant::HashKeccak512Eth => true,
            ECDSAVerifyVariant::HashSha3_256 => false,
            ECDSAVerifyVariant::HashSha3_256Raw => true,
            ECDSAVerifyVariant::HashSha3_256Eth => true,
            ECDSAVerifyVariant::HashSha3_384 => false,
            ECDSAVerifyVariant::HashSha3_384Raw => true,
            ECDSAVerifyVariant::HashSha3_384Eth => true,
            ECDSAVerifyVariant::HashSha3_512 => false,
            ECDSAVerifyVariant::HashSha3_512Raw => true,
            ECDSAVerifyVariant::HashSha3_512Eth => true,
        }
    }

    /// Returns the variant at the given position of the instruction encoding.
    pub fn new(variant: u8) -> (r: ECDSAVerifyVariant)
        requires
            variant < 20,
        ensures
            r == ECDSAVerifyVariant::spec_from_index(variant),
            r.spec_index() == variant,
    {
        match variant {
            0 => ECDSAVerifyVariant::Digest,
            1 => ECDSAVerifyVariant::DigestEth,
            2 => ECDSAVerifyVariant::HashKeccak256,
            3 => ECDSAVerifyVariant::HashKeccak256Raw,
            4 => ECDSAVerifyVariant::HashKeccak256Eth,
            5 => ECDSAVerifyVariant::HashKeccak384,
            6 => ECDSAVerifyVariant::HashKeccak384Raw,
            7 => ECDSAVerifyVariant::HashKeccak384Eth,
            8 => ECDSAVerifyVariant::HashKeccak512,
            9 => ECDSAVerifyVariant::HashKeccak512Raw,
            10 => ECDSAVerifyVariant::HashKeccak512Eth,
            11 => ECDSAVerifyVariant::HashSha3_256,
            12 => ECDSAVerifyVariant::HashSha3_256Raw,
            13 => ECDSAVerifyVariant::HashSha3_256Eth,
            14 => ECDSAVerifyVariant::HashSha3_384,
            15 => ECDSAVerifyVariant::HashSha3_384Raw,
            16 => ECDSAVerifyVariant::HashSha3_384Eth,
            17 => ECDSAVerifyVariant::HashSha3_512,
            18 => ECDSAVerifyVariant::HashSha3_512Raw,
            _ => ECDSAVerifyVariant::HashSha3_512Eth,
        }
    }

    /// Returns the position of the variant in the instruction encoding.
    pub fn index(&self) -> (r: u8)
        ensures
            r == self.spec_index(),
    {
        match self {
            ECDSAVerifyVariant::Digest => 0,
            ECDSAVerifyVariant::DigestEth => 1,
            ECDSAVerifyVariant::HashKeccak256 => 2,
            ECDSAVerifyVariant::HashKeccak256Raw => 3,
            ECDSAVerifyVariant::HashKeccak256Eth => 4,
            ECDSAVerifyVariant::HashKeccak384 => 5,
            ECDSAVerifyVariant::HashKeccak384Raw => 6,
            ECDSAVerifyVariant::HashKeccak384Eth => 7,
            ECDSAVerifyVariant::HashKeccak512 => 8,
            ECDSAVerifyVariant::HashKeccak512Raw => 9,
            ECDSAVerifyVariant::HashKeccak512Eth => 10,
            ECDSAVerifyVariant::HashSha3_256 => 11,
            ECDSAVerifyVariant::HashSha3_256Raw => 12,
            ECDSAVerifyVariant::HashSha3_256Eth => 13,
            ECDSAVerifyVariant::HashSha3_384 => 14,
            ECDSAVerifyVariant::HashSha3_384Raw => 15,
            ECDSAVerifyVariant::HashSha3_384Eth => 16,
            ECDSAVerifyVariant::HashSha3_512 => 17,
            ECDSAVerifyVariant::HashSha3_512Raw => 18,
            ECDSAVerifyVariant::HashSha3_512Eth => 19,
        }
    }

    /// Returns the opcode associated with the variant.
    pub fn opcode(&self) -> (r: &'static str)
        ensures
            r@ == self.spec_opcode(),
    {
        match self {
            ECDSAVerifyVariant::Digest => "ecdsa.verify.digest",
            ECDSAVerifyVariant::DigestEth => "ecdsa.verify.digest.eth",
            ECDSAVerifyVariant::HashKeccak256 => "ecdsa.verify.keccak256",
            ECDSAVerifyVariant::HashKeccak256Raw => "ecdsa.verify.keccak256.raw",
            ECDSAVerifyVariant::HashKeccak256Eth => "ecdsa.verify.keccak256.eth",
            ECDSAVerifyVariant::HashKeccak384 => "ecdsa.verify.keccak384",
            ECDSAVerifyVariant::HashKeccak384Raw => "ecdsa.verify.keccak384.raw",
            ECDSAVerifyVariant::HashKeccak384Eth => "ecdsa.verify.keccak384.eth",
            ECDSAVerifyVariant::HashKeccak512 => "ecdsa.verify.keccak512",
            ECDSAVerifyVariant::HashKeccak512Raw => "ecdsa.verify.keccak512.raw",
            ECDSAVerifyVariant::HashKeccak512Eth => "ecdsa.verify.keccak512.eth",
            ECDSAVerifyVariant::HashSha3_256 => "ecdsa.verify.sha3_256",
            ECDSAVerifyVariant::HashSha3_256Raw => "ecdsa.verify.sha3_256.raw",
            ECDSAVerifyVariant::HashSha3_256Eth => "ecdsa.verify.sha3_256.eth",
            ECDSAVerifyVariant::HashSha3_384 => "ecdsa.verify.sha3_384",
            ECDSAVerifyVariant::HashSha3_384Raw => "ecdsa.verify.sha3_384.raw",
            ECDSAVerifyVariant::HashSha3_384Eth => "ecdsa.verify.sha3_384.eth",
            ECDSAVerifyVariant::HashSha3_512 => "ecdsa.verify.sha3_512",
            ECDSAVerifyVariant::HashSha3_512Raw => "ecdsa.verify.sha3_512.raw",
            ECDSAVerifyVariant::HashSha3_512Eth => "ecdsa.verify.sha3_512.eth",
        }
    }

    /// Returns `true` if the variant requires byte alignment.
    pub fn requires_byte_alignment(&self) -> (r: bool)
        ensures
            r == self.spec_requires_byte_alignment(),
    {
        match self {
            ECDSAVerifyVariant::Digest => true,
            ECDSAVerifyVariant::DigestEth => true,
            ECDSAVerifyVariant::HashKeccak256 => false,
            ECDSAVerifyVariant::HashKeccak256Raw => true,
            ECDSAVerifyVariant::HashKeccak256Eth => true,
            ECDSAVerifyVariant::HashKeccak384 => false,
            ECDSAVerifyVariant::HashKeccak384Raw => true,
            ECDSAVerifyVariant::HashKeccak384Eth => true,
            ECDSAVerifyVariant::HashKeccak512 => false,
            ECDSAVerifyVariant::HashKeccak512Raw => true,
            ECDSAVerifyVariant::HashKeccak512Eth => true,
            ECDSAVerifyVariant::HashSha3_256 => false,
            ECDSAVerifyVariant::HashSha3_256Raw => true,
            ECDSAVerifyVariant::HashSha3_256Eth => true,
            ECDSAVerifyVariant::HashSha3_384 => false,
            ECDSAVerifyVariant::HashSha3_384Raw => true,
            ECDSAVerifyVariant::HashSha3_384Eth => true,
            ECDSAVerifyVariant::HashSha3_512 => false,
            ECDSAVerifyVariant::HashSha3_512Raw => true,
            ECDSAVerifyVariant::HashSha3_512Eth => true,
        }
    }

    /// Returns `true` if the variant uses raw bits.
    pub fn is_raw(&self) -> (r: bool)
        ensures
            r == self.spec_is_raw(),
    {
        match self {
            ECDSAVerifyVariant::Digest => true,
            ECDSAVerifyVariant::DigestEth => true,
            ECDSAVerifyVariant::HashKeccak256 => false,
            ECDSAVerifyVariant::HashKeccak256Raw => true,
            ECDSAVerifyVariant::HashKeccak256Eth => true,
            ECDSAVerifyVariant::HashKeccak384 => false,
            ECDSAVerifyVariant::HashKeccak384Raw => true,
            ECDSAVerifyVariant::HashKeccak384Eth => true,
            ECDSAVerifyVariant::HashKeccak512 => false,
            ECDSAVerifyVariant::HashKeccak512Raw => true,
            ECDSAVerifyVariant::HashKeccak512Eth => true,
            ECDSAVerifyVariant::HashSha3_256 => false,
            ECDSAVerifyVariant::HashSha3_256Raw => true,
            ECDSAVerifyVariant::HashSha3_256Eth => true,
            ECDSAVerifyVariant::HashSha3_384 => false,
            ECDSAVerifyVariant::HashSha3_384Raw => true,
            ECDSAVerifyVariant::HashSha3_384Eth => true,
            ECDSAVerifyVariant::HashSha3_512 => false,
            ECDSAVerifyVariant::HashSha3_512Raw => true,
            ECDSAVerifyVariant::HashSha3_512Eth => true,
        }
    }

}

/// The commitment scheme that a `commit` instruction applies.
#[derive(Debug, Clone, Copy, PartialEq, Eq, Structural)]
pub enum CommitVariant {
    CommitBHP256,
    CommitBHP512,
    CommitBHP768,
    CommitBHP1024,
    CommitPED64,
    CommitPED128,
    CommitBHP256Raw,
    CommitBHP512Raw,
    CommitBHP768Raw,
    CommitBHP1024Raw,
    CommitPED64Raw,
    CommitPED128Raw,
}

/// The opcode text of the commit variant at the given position.
pub open spec fn spec_commit_opcode(variant: u8) -> Seq<char> {
    if variant == 0 { "commit.bhp256"@ }
    else if variant == 1 { "commit.bhp512"@ }
    else if variant == 2 { "commit.bhp768"@ }
    else if variant == 3 { "commit.bhp1024"@ }
    else if variant == 4 { "commit.ped64"@ }
    else if variant == 5 { "commit.ped128"@ }
    else if variant == 6 { "commit.bhp256.raw"@ }
    else if variant == 7 { "commit.bhp512.raw"@ }
    else if variant == 8 { "commit.bhp768.raw"@ }
    else if variant == 9 { "commit.bhp1024.raw"@ }
    else if variant == 10 { "commit.ped64.raw"@ }
    else { "commit.ped128.raw"@ }
}

impl CommitVariant {
    /// Returns the opcode associated with the variant at the given position.
    pub fn opcode(variant: u8) -> (r: &'static str)
        requires
            variant < 12,
        ensures
            r@ == spec_commit_opcode(variant),
    {
        match variant {
            0 => "commit.bhp256",
            1 => "commit.bhp512",
            2 => "commit.bhp768",
            3 => "commit.bhp1024",
            4 => "commit.ped64",
            5 => "commit.ped128",
            6 => "commit.bhp256.raw",
            7 => "commit.bhp512.raw",
            8 => "commit.bhp768.raw",
            9 => "commit.bhp1024.raw",
            10 => "commit.ped64.raw",
            _ => "commit.ped128.raw",
        }
    }

    /// Returns `true` if the variant at the given position commits over raw bits.
    pub fn is_raw(variant: u8) -> (r: bool)
        ensures
            r == (6 <= variant && variant <= 11),
    {
        6 <= variant && variant <= 11
    }
}

/// The serialization that a `serialize` instruction performs.
#[derive(Debug, Clone, Copy, PartialEq, Eq, Structural)]
pub enum SerializeVariant {
    ToBits,
    ToBitsRaw,
}

/// The opcode text of the serialize variant at the given position.
pub open spec fn spec_serialize_opcode(variant: u8) -> Seq<char> {
    if variant == 0 { "serialize.bits"@ } else { "serialize.bits.raw"@ }
}

impl SerializeVariant {
    /// Returns the opcode associated with the variant at the given position.
    pub fn opcode(variant: u8) -> (r: &'static str)
        requires
            variant < 2,
        ensures
            r@ == spec_serialize_opcode(variant),
    {
        if variant == 0 { "serialize.bits" } else { "serialize.bits.raw" }
    }
}

/// The deserialization that a `deserialize` instruction performs.
#[derive(Debug, Clone, Copy, PartialEq, Eq, Structural)]
pub enum DeserializeVariant {
    FromBits,
    FromBitsRaw,
}

/// The opcode text of the deserialize variant at the given position.
pub open spec fn spec_deserialize_opcode(variant: u8) -> Seq<char> {
    if variant == 0 { "deserialize.bits"@ } else { "deserialize.bits.raw"@ }
}

impl DeserializeVariant {
    /// Returns the opcode associated with the variant at the given position.
    pub fn opcode(variant: u8) -> (r: &'static str)
        requires
            variant < 2,
        ensures
            r@ == spec_deserialize_opcode(variant),
    {
        if variant == 0 { "deserialize.bits" } else { "deserialize.bits.raw" }
    }

    /// Returns the variant at the given position.
    pub fn from_u8(variant: u8) -> (r: DeserializeVariant)
        requires
            variant < 2,
        ensures
            variant == 0 ==> r == DeserializeVariant::FromBits,
            variant == 1 ==> r == DeserializeVariant::FromBitsRaw,
    {
        if variant == 0 { DeserializeVariant::FromBits } else { DeserializeVariant::FromBitsRaw }
    }
}

/// The maximum number of circuits that a single `snark.verify` instruction may verify.
pub const MAX_SNARK_VERIFY_CIRCUITS: u32 = 32;
/// The maximum number of proof instances that a single `snark.verify.batch` instruction may verify.
pub const MAX_SNARK_VERIFY_INSTANCES: u32 = 128;

/// Which verification a `snark.verify` instruction performs (single proof or batch).
#[derive(Debug, Clone, Copy, PartialEq, Eq, Structural)]
pub enum SnarkVerifyVariant {
    Varuna,
    VarunaBatch,
}

impl SnarkVerifyVariant {
    /// The opcode text of the variant.
    pub open spec fn spec_opcode(self) -> Seq<char> {
        match self {
            SnarkVerifyVariant::Varuna => "snark.verify"@,
            SnarkVerifyVariant::VarunaBatch => "snark.verify.batch"@,
        }
    }

    /// Returns the variant at the given position.
    pub fn new(variant: u8) -> (r: SnarkVerifyVariant)
        requires
            variant < 2,
        ensures
            variant == 0 ==> r == SnarkVerifyVariant::Varuna,
            variant == 1 ==> r == SnarkVerifyVariant::VarunaBatch,
    {
        if variant == 0 { SnarkVerifyVariant::Varuna } else { SnarkVerifyVariant::VarunaBatch }
    }

    /// Returns the opcode associated with the variant.
    pub fn opcode(&self) -> (r: &'static str)
        ensures
            r@ == self.spec_opcode(),
    {
        match self {
            SnarkVerifyVariant::Varuna => "snark.verify",
            SnarkVerifyVariant::VarunaBatch => "snark.verify.batch",
        }
    }
}

/// There are exactly 45 hash variants: the encoding position is a bijection between the
/// variants and the numbers below 45.
pub proof fn lemma_hash_variant_positions(v: HashVariant, i: u8)
    ensures
        v.spec_index() < NUM_HASH_VARIANTS,
        HashVariant::spec_from_index(v.spec_index()) == v,
        i < NUM_HASH_VARIANTS ==> HashVariant::spec_from_index(i).spec_index() == i,
{
}

/// Every hash variant that requires byte-aligned input takes exactly one operand.
pub proof fn lemma_byte_aligned_hash_has_one_operand(v: HashVariant)
    ensures
        v.spec_requires_byte_alignment() ==> v.spec_expected_num_operands() == 1,
{
}

/// There are exactly 20 ECDSA verification variants: the encoding position is a bijection
/// between the variants and the numbers below 20.
pub proof fn lemma_ecdsa_variant_positions(v: ECDSAVerifyVariant, i: u8)
    ensures
        v.spec_index() < 20,
        ECDSAVerifyVariant::spec_from_index(v.spec_index()) == v,
        i < 20 ==> ECDSAVerifyVariant::spec_from_index(i).spec_index() == i,
{
}

/// An ECDSA verification variant that reads the raw bits of the message also requires the
/// message to be byte-aligned.
pub proof fn lemma_raw_ecdsa_is_byte_aligned(v: ECDSAVerifyVariant)
    ensures
        v.spec_is_raw() ==> v.spec_requires_byte_alignment(),
{
}

} // verus!
