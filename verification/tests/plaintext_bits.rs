use snarkvm_console::network::prelude::{ToBits, ToBitsRaw};
use snarkvm_console::network::MainnetV0;
use snarkvm_console::program::Plaintext;
use std::str::FromStr;
use synthesizer_program::operand::{Identifier, ProgramID};
use synthesizer_program::operand::{Operand, Register};
use synthesizer_program::plaintext_bits::{
    as_bit_array, evaluate_deserialize, evaluate_serialize, from_bit_array, ExternalDefinition, PlaintextValue, StructTable,
};
use synthesizer_program::serialize::{DeserializeInstruction, SerializeInstruction};
use synthesizer_program::program::Definition;
use synthesizer_program::types::{LiteralType, PlaintextType, RegisterType, TypeError};
use synthesizer_program::variants::{DeserializeVariant, SerializeVariant};

fn ty(text: &str) -> PlaintextType {
    PlaintextType::from_str(text).unwrap()
}

fn definition(name: &str, text: &str) -> Definition {
    Definition { name: Identifier { name: name.to_string() }, text: text.to_string() }
}

fn table() -> StructTable {
    StructTable {
        local: vec![
            definition("point", "struct point:\n    x as u8;\n    y as u8;"),
            definition("line", "struct line:\n    start as point;\n    end as point;\n    tags as [boolean; 2u32];"),
        ],
        external: vec![ExternalDefinition {
            program: ProgramID { name: "shapes".to_string(), network: "aleo".to_string() },
            definition: definition("size", "struct size:\n    w as u16;\n    h as u16;"),
        }],
    }
}

fn literal(text: &str) -> PlaintextValue {
    PlaintextValue::Literal(text.to_string())
}

fn point(x: &str, y: &str) -> PlaintextValue {
    PlaintextValue::Struct(
        vec![Identifier { name: "x".to_string() }, Identifier { name: "y".to_string() }],
        vec![literal(x), literal(y)],
    )
}

fn console_bits(value: &str) -> Vec<bool> {
    Plaintext::<MainnetV0>::from_str(value).unwrap().to_bits_le()
}

fn console_raw_bits(value: &str) -> Vec<bool> {
    Plaintext::<MainnetV0>::from_str(value).unwrap().to_bits_raw_le()
}

fn number_bits(n: u64, width: usize) -> Vec<bool> {
    (0..width).map(|i| (n >> i) & 1 == 1).collect()
}

#[test]
fn deserialize_reads_a_raw_literal() {
    let bits = number_bits(5, 8);
    let value = evaluate_deserialize(DeserializeVariant::FromBitsRaw, &bits, &ty("u8"), &table());
    assert_eq!(value, Some(literal("5u8")));
}

#[test]
fn deserialize_reads_a_literal_with_its_metadata() {
    // The literal prefix, the type id of `u8` (9), the size 8, then the value.
    let mut bits = vec![false, false];
    bits.extend(number_bits(9, 8));
    bits.extend(number_bits(8, 16));
    bits.extend(number_bits(200, 8));
    assert_eq!(bits, console_bits("200u8"));
    let value = evaluate_deserialize(DeserializeVariant::FromBits, &bits, &ty("u8"), &table());
    assert_eq!(value, Some(literal("200u8")));
    // A wrong type id is refused.
    let mut wrong = bits.clone();
    wrong[2] = !wrong[2];
    assert_eq!(evaluate_deserialize(DeserializeVariant::FromBits, &wrong, &ty("u8"), &table()), None);
    // A wrong prefix is refused.
    let mut wrong = bits.clone();
    wrong[1] = true;
    assert_eq!(evaluate_deserialize(DeserializeVariant::FromBits, &wrong, &ty("u8"), &table()), None);
}

#[test]
fn deserialize_reads_back_what_console_writes() {
    for (text, type_text, expected) in [
        ("{ x: 1u8, y: 2u8 }", "point", point("1u8", "2u8")),
        ("[3u8, 4u8]", "[u8; 2u32]", PlaintextValue::Array(vec![literal("3u8"), literal("4u8")])),
        ("true", "boolean", literal("true")),
        ("7field", "field", literal("7field")),
        (
            "[{ x: 1u8, y: 2u8 }, { x: 3u8, y: 4u8 }]",
            "[point; 2u32]",
            PlaintextValue::Array(vec![point("1u8", "2u8"), point("3u8", "4u8")]),
        ),
        (
            "{ start: { x: 1u8, y: 2u8 }, end: { x: 3u8, y: 4u8 }, tags: [true, false] }",
            "line",
            PlaintextValue::Struct(
                vec![
                    Identifier { name: "start".to_string() },
                    Identifier { name: "end".to_string() },
                    Identifier { name: "tags".to_string() },
                ],
                vec![
                    point("1u8", "2u8"),
                    point("3u8", "4u8"),
                    PlaintextValue::Array(vec![literal("true"), literal("false")]),
                ],
            ),
        ),
        (
            "{ w: 640u16, h: 480u16 }",
            "shapes.aleo/size",
            PlaintextValue::Struct(
                vec![Identifier { name: "w".to_string() }, Identifier { name: "h".to_string() }],
                vec![literal("640u16"), literal("480u16")],
            ),
        ),
    ] {
        let t = ty(type_text);
        let read = evaluate_deserialize(DeserializeVariant::FromBits, &console_bits(text), &t, &table());
        assert_eq!(read, Some(expected), "bits of {text}");
        let read_raw = evaluate_deserialize(DeserializeVariant::FromBitsRaw, &console_raw_bits(text), &t, &table());
        let expected_again = evaluate_deserialize(DeserializeVariant::FromBits, &console_bits(text), &t, &table());
        assert_eq!(read_raw, expected_again, "raw bits of {text}");
    }
}

#[test]
fn deserialize_refuses_bits_of_the_wrong_size() {
    let mut bits = console_bits("{ x: 1u8, y: 2u8 }");
    bits.push(false);
    assert_eq!(evaluate_deserialize(DeserializeVariant::FromBits, &bits, &ty("point"), &table()), None);
    bits.truncate(bits.len() - 2);
    assert_eq!(evaluate_deserialize(DeserializeVariant::FromBits, &bits, &ty("point"), &table()), None);
    // The raw bits of a point are the bits of its two members.
    assert_eq!(
        evaluate_deserialize(DeserializeVariant::FromBitsRaw, &number_bits(0x0201, 16), &ty("point"), &table()),
        Some(point("1u8", "2u8"))
    );
    assert_eq!(evaluate_deserialize(DeserializeVariant::FromBitsRaw, &number_bits(1, 15), &ty("point"), &table()), None);
}

#[test]
fn deserialize_refuses_a_struct_that_the_table_does_not_define() {
    let bits = console_bits("{ x: 1u8, y: 2u8 }");
    assert_eq!(evaluate_deserialize(DeserializeVariant::FromBits, &bits, &ty("circle"), &table()), None);
    assert_eq!(evaluate_deserialize(DeserializeVariant::FromBits, &bits, &ty("other.aleo/point"), &table()), None);
}

#[test]
fn deserialize_checks_member_names() {
    // The same bits as a point, read as a struct whose members have other names.
    let renamed = StructTable {
        local: vec![definition("point", "struct point:\n    a as u8;\n    b as u8;")],
        external: vec![],
    };
    let bits = console_bits("{ x: 1u8, y: 2u8 }");
    assert_eq!(evaluate_deserialize(DeserializeVariant::FromBits, &bits, &ty("point"), &renamed), None);
    // Without the metadata the names are not in the bits.
    let raw = console_raw_bits("{ x: 1u8, y: 2u8 }");
    assert_eq!(
        evaluate_deserialize(DeserializeVariant::FromBitsRaw, &raw, &ty("point"), &renamed),
        Some(PlaintextValue::Struct(
            vec![Identifier { name: "a".to_string() }, Identifier { name: "b".to_string() }],
            vec![literal("1u8"), literal("2u8")],
        ))
    );
}

fn bit_values(bits: &[bool]) -> PlaintextValue {
    PlaintextValue::Array(bits.iter().map(|b| literal(if *b { "true" } else { "false" })).collect())
}

fn bool_array(n: usize) -> PlaintextType {
    ty(&format!("[boolean; {n}u32]"))
}

#[test]
fn serialize_gives_the_bits_that_console_writes() {
    let value = point("1u8", "2u8");
    assert_eq!(value.to_string(), "{ x: 1u8, y: 2u8 }");
    let bits = console_bits("{ x: 1u8, y: 2u8 }");
    let serialized = evaluate_serialize(SerializeVariant::ToBits, &value, &bool_array(bits.len()));
    assert_eq!(serialized, Some(bit_values(&bits)));
    let raw = console_raw_bits("{ x: 1u8, y: 2u8 }");
    assert_eq!(raw, number_bits(0x0201, 16));
    let serialized_raw = evaluate_serialize(SerializeVariant::ToBitsRaw, &value, &bool_array(16));
    assert_eq!(serialized_raw, Some(bit_values(&raw)));
    // The destination must be an array of booleans of the length of the bits.
    assert_eq!(evaluate_serialize(SerializeVariant::ToBitsRaw, &value, &bool_array(17)), None);
    assert_eq!(evaluate_serialize(SerializeVariant::ToBitsRaw, &value, &ty("[u8; 16u32]")), None);
    assert_eq!(evaluate_serialize(SerializeVariant::ToBitsRaw, &value, &ty("u8")), None);
}

#[test]
fn serialized_values_deserialize_back() {
    let line = PlaintextValue::Struct(
        vec![
            Identifier { name: "start".to_string() },
            Identifier { name: "end".to_string() },
            Identifier { name: "tags".to_string() },
        ],
        vec![point("1u8", "2u8"), point("3u8", "4u8"), PlaintextValue::Array(vec![literal("true"), literal("false")])],
    );
    for (value, type_text) in [
        (literal("42u64"), "u64"),
        (PlaintextValue::Array(vec![literal("-1i8"), literal("7i8")]), "[i8; 2u32]"),
        (point("9u8", "10u8"), "point"),
        (line, "line"),
    ] {
        for (serialize, deserialize, raw) in [
            (SerializeVariant::ToBits, DeserializeVariant::FromBits, false),
            (SerializeVariant::ToBitsRaw, DeserializeVariant::FromBitsRaw, true),
        ] {
            let n = if raw { console_raw_bits(&value.to_string()).len() } else { console_bits(&value.to_string()).len() };
            let array = evaluate_serialize(serialize, &value, &bool_array(n)).unwrap();
            let bits = as_bit_array(&array).unwrap();
            assert_eq!(bits.len(), n);
            let back = evaluate_deserialize(deserialize, &bits, &ty(type_text), &table());
            assert_eq!(back.as_ref(), Some(&value), "{type_text}");
        }
    }
}

#[test]
fn bit_arrays_hold_booleans_only() {
    assert_eq!(from_bit_array(&[true, false], 2), Some(bit_values(&[true, false])));
    assert_eq!(from_bit_array(&[true, false], 3), None);
    assert_eq!(as_bit_array(&bit_values(&[false, true, true])), Some(vec![false, true, true]));
    assert_eq!(as_bit_array(&PlaintextValue::Array(vec![literal("true"), literal("1u8")])), None);
    assert_eq!(as_bit_array(&literal("true")), None);
}

fn operand(text: &str) -> Operand {
    Operand::from_str(text).unwrap()
}

fn register(text: &str) -> Register {
    match Operand::from_str(text).unwrap() {
        Operand::Register(r) => r,
        _ => panic!("not a register: {text}"),
    }
}

#[test]
fn bits_instructions_evaluate_on_values() {
    // A `u8` with its metadata takes 2 + 8 + 16 + 8 = 34 bits.
    let serialize = SerializeInstruction::new(0, vec![operand("r0")], ty("u8"), register("r1"), bool_array(34)).unwrap();
    let deserialize =
        DeserializeInstruction::new(0, vec![operand("r0")], bool_array(34), register("r1"), ty("u8")).unwrap();
    let array = serialize.evaluate(&literal("5u8")).unwrap();
    assert_eq!(as_bit_array(&array).unwrap(), console_bits("5u8"));
    assert_eq!(deserialize.evaluate(&array, &table()), Some(literal("5u8")));
    assert_eq!(deserialize.evaluate(&literal("5u8"), &table()), None);

    let u8_input = vec![RegisterType::Plaintext(ty("u8"))];
    assert_eq!(serialize.output_types_in(&u8_input, &table()).unwrap(), vec![RegisterType::Plaintext(bool_array(34))]);
    let array_input = vec![RegisterType::Plaintext(bool_array(34))];
    assert_eq!(deserialize.output_types_in(&array_input, &table()).unwrap(), vec![RegisterType::Plaintext(ty("u8"))]);

    // The raw bits of a `u8` are its 8 bits.
    let raw = SerializeInstruction::new(1, vec![operand("r0")], ty("u8"), register("r1"), bool_array(34)).unwrap();
    assert!(matches!(raw.output_types_in(&u8_input, &table()), Err(TypeError::SizeMismatch)));
    assert_eq!(raw.evaluate(&literal("5u8")), None);
    let raw = SerializeInstruction::new(1, vec![operand("r0")], ty("u8"), register("r1"), bool_array(8)).unwrap();
    assert_eq!(raw.evaluate(&literal("5u8")), Some(bit_values(&number_bits(5, 8))));
    assert!(matches!(
        SerializeInstruction::new(0, vec![operand("r0")], PlaintextType::Literal(LiteralType::U8), register("r1"), bool_array(8))
            .unwrap()
            .output_types_in(&u8_input, &table()),
        Err(TypeError::SizeMismatch)
    ));
}
