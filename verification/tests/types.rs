use synthesizer_program::operand::{Identifier, ProgramID};
use synthesizer_program::types::{
    check_nd_array_type, ecdsa_verify_output_types, hash_output_types, snark_verify_output_types, LiteralType,
    PlaintextType, RegisterType, TypeError,
};
use synthesizer_program::variants::{ECDSAVerifyVariant, HashVariant, SnarkVerifyVariant};

fn lit(l: LiteralType) -> PlaintextType {
    PlaintextType::Literal(l)
}

fn array(e: PlaintextType, n: u32) -> PlaintextType {
    PlaintextType::Array(Box::new(e), n)
}

fn reg(p: PlaintextType) -> RegisterType {
    RegisterType::Plaintext(p)
}

fn boolean() -> RegisterType {
    reg(lit(LiteralType::Boolean))
}

#[test]
fn nd_array_types() {
    assert!(check_nd_array_type(&reg(lit(LiteralType::U8)), LiteralType::U8, 0));
    assert!(!check_nd_array_type(&reg(lit(LiteralType::U8)), LiteralType::U8, 1));
    assert!(check_nd_array_type(&reg(array(lit(LiteralType::U8), 4)), LiteralType::U8, 1));
    assert!(!check_nd_array_type(&reg(array(lit(LiteralType::U16), 4)), LiteralType::U8, 1));
    assert!(check_nd_array_type(&reg(array(array(lit(LiteralType::Field), 3), 2)), LiteralType::Field, 2));
    assert!(!check_nd_array_type(&reg(array(array(lit(LiteralType::Field), 3), 2)), LiteralType::Field, 1));
    assert!(!check_nd_array_type(&reg(array(lit(LiteralType::Field), 3)), LiteralType::Field, 2));
    assert!(!check_nd_array_type(&RegisterType::DynamicRecord, LiteralType::Field, 0));
}

fn snark_inputs(vk: PlaintextType, version: PlaintextType, inputs: PlaintextType, proof: PlaintextType) -> Vec<RegisterType> {
    vec![reg(vk), reg(version), reg(inputs), reg(proof)]
}

#[test]
fn snark_verify_types() {
    let single = snark_inputs(
        array(lit(LiteralType::U8), 100),
        lit(LiteralType::U8),
        array(lit(LiteralType::Field), 3),
        array(lit(LiteralType::U8), 200),
    );
    assert_eq!(snark_verify_output_types(SnarkVerifyVariant::Varuna, &single), Ok(vec![boolean()]));
    assert_eq!(snark_verify_output_types(SnarkVerifyVariant::VarunaBatch, &single), Err(TypeError::InputType(0)));

    let batch = snark_inputs(
        array(array(lit(LiteralType::U8), 100), 2),
        lit(LiteralType::U8),
        array(array(array(lit(LiteralType::Field), 3), 4), 2),
        array(lit(LiteralType::U8), 200),
    );
    assert_eq!(snark_verify_output_types(SnarkVerifyVariant::VarunaBatch, &batch), Ok(vec![boolean()]));

    let mismatched = snark_inputs(
        array(array(lit(LiteralType::U8), 100), 3),
        lit(LiteralType::U8),
        array(array(array(lit(LiteralType::Field), 3), 4), 2),
        array(lit(LiteralType::U8), 200),
    );
    assert_eq!(snark_verify_output_types(SnarkVerifyVariant::VarunaBatch, &mismatched), Err(TypeError::CircuitCount));

    let too_many_instances = snark_inputs(
        array(array(lit(LiteralType::U8), 100), 2),
        lit(LiteralType::U8),
        array(array(array(lit(LiteralType::Field), 3), 65), 2),
        array(lit(LiteralType::U8), 200),
    );
    assert_eq!(
        snark_verify_output_types(SnarkVerifyVariant::VarunaBatch, &too_many_instances),
        Err(TypeError::TooManyInstances)
    );

    let bad_version = snark_inputs(
        array(lit(LiteralType::U8), 100),
        lit(LiteralType::U16),
        array(lit(LiteralType::Field), 3),
        array(lit(LiteralType::U8), 200),
    );
    assert_eq!(snark_verify_output_types(SnarkVerifyVariant::Varuna, &bad_version), Err(TypeError::InputType(1)));
    assert_eq!(snark_verify_output_types(SnarkVerifyVariant::Varuna, &vec![boolean()]), Err(TypeError::InputCount(4)));
}

#[test]
fn ecdsa_verify_types() {
    let bytes = |n| reg(array(lit(LiteralType::U8), n));
    let digest = vec![bytes(65), bytes(33), bytes(32)];
    assert_eq!(ecdsa_verify_output_types(ECDSAVerifyVariant::Digest, &digest, None), Ok(vec![boolean()]));
    assert_eq!(ecdsa_verify_output_types(ECDSAVerifyVariant::DigestEth, &digest, None), Err(TypeError::InputType(1)));
    let eth = vec![bytes(65), bytes(20), bytes(32)];
    assert_eq!(ecdsa_verify_output_types(ECDSAVerifyVariant::DigestEth, &eth, None), Ok(vec![boolean()]));
    let bad_digest = vec![bytes(65), bytes(33), bytes(31)];
    assert_eq!(ecdsa_verify_output_types(ECDSAVerifyVariant::Digest, &bad_digest, None), Err(TypeError::InputType(2)));
    let bad_signature = vec![bytes(64), bytes(33), bytes(32)];
    assert_eq!(ecdsa_verify_output_types(ECDSAVerifyVariant::Digest, &bad_signature, None), Err(TypeError::InputType(0)));
    let message = vec![bytes(65), bytes(33), reg(lit(LiteralType::Field))];
    // Hashing the value's bits needs no alignment.
    assert_eq!(ecdsa_verify_output_types(ECDSAVerifyVariant::HashKeccak256, &message, None), Ok(vec![boolean()]));
    // Hashing its raw bits needs a whole number of bytes.
    assert_eq!(
        ecdsa_verify_output_types(ECDSAVerifyVariant::HashKeccak256Raw, &message, Some(253)),
        Err(TypeError::NotByteAligned)
    );
    assert_eq!(
        ecdsa_verify_output_types(ECDSAVerifyVariant::HashKeccak256Raw, &message, None),
        Err(TypeError::UnknownSize)
    );
    assert_eq!(
        ecdsa_verify_output_types(ECDSAVerifyVariant::HashKeccak256Raw, &message, Some(256)),
        Ok(vec![boolean()])
    );
}

#[test]
fn hash_types() {
    let input = vec![reg(lit(LiteralType::Field))];
    let field = lit(LiteralType::Field);
    assert_eq!(
        hash_output_types(HashVariant::HashBHP256, 1, &field, &input, None),
        Ok(vec![reg(lit(LiteralType::Field))])
    );
    assert_eq!(
        hash_output_types(HashVariant::HashBHP256, 1, &lit(LiteralType::Boolean), &input, None),
        Err(TypeError::DestinationType)
    );
    assert_eq!(
        hash_output_types(HashVariant::HashBHP256, 1, &PlaintextType::Struct(Identifier { name: "s".to_string() }), &input, None),
        Err(TypeError::DestinationType)
    );
    assert_eq!(hash_output_types(HashVariant::HashBHP256, 2, &field, &input, None), Err(TypeError::OperandCount));
    assert_eq!(hash_output_types(HashVariant::HashBHP256, 1, &field, &vec![], None), Err(TypeError::InputCount(1)));
    // The hashes to bits produce arrays of booleans.
    let bits = array(lit(LiteralType::Boolean), 256);
    let native = hash_output_types(HashVariant::HashKeccak256Native, 1, &bits, &input, Some(256));
    assert_eq!(native, Ok(vec![reg(array(lit(LiteralType::Boolean), 256))]));
    assert_eq!(
        hash_output_types(HashVariant::HashKeccak256Native, 1, &bits, &input, Some(253)),
        Err(TypeError::NotByteAligned)
    );
    assert_eq!(
        hash_output_types(HashVariant::HashKeccak256Native, 1, &field, &input, Some(256)),
        Err(TypeError::DestinationType)
    );
    let external = PlaintextType::ExternalStruct(
        ProgramID { name: "foo".to_string(), network: "aleo".to_string() },
        Identifier { name: "s".to_string() },
    );
    assert_eq!(hash_output_types(HashVariant::HashPSD2, 1, &external, &input, None), Err(TypeError::DestinationType));
}
