[package]
name = "synthesizer_program"
version = "0.1.0"
edition = "2021"
publish = false

[dependencies]
snarkvm-console = "=4.12.0"
snarkvm-synthesizer-snark = "=4.12.0"
tiny-keccak = { version = "=2.0.2", features = ["sha3"] }

[dev-dependencies]
k256 = { version = "=0.14.0", features = ["ecdsa"] }
