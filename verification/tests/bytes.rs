use synthesizer_program::operand::{Identifier, Operand, ProgramID};

fn round_trip(text: &str) {
    let operand = Operand::from_str(text).unwrap();
    let bytes = operand.write_le().unwrap();
    let mut with_rest = bytes.clone();
    with_rest.extend_from_slice(&[9, 9, 9]);
    let (left, read) = Operand::read_le(&with_rest).unwrap();
    assert_eq!(left, 3, "bytes left after reading {text}");
    assert_eq!(read, operand, "operand read back from the bytes of {text}");
    assert_eq!(read.to_string(), text);
}

#[test]
fn operand_bytes_round_trip() {
    for text in [
        "1field",
        "5u8",
        "true",
        "r0",
        "r3.owner",
        "r2[0u32]",
        "howard.aleo",
        "self.signer",
        "self.caller",
        "block.height",
        "block.timestamp",
        "network.id",
        "checksum",
        "foo.aleo/checksum",
        "edition",
        "foo.aleo/edition",
        "program_owner",
        "foo.aleo/program_owner",
        "aleo::GENERATOR",
        "aleo::GENERATOR_POWERS",
        "aleo::GENERATOR_POWERS[5u32]",
        "transfer/checksum",
        "foo.aleo/transfer/checksum",
    ] {
        round_trip(text);
    }
}

#[test]
fn operand_bytes_start_with_the_tag() {
    assert_eq!(Operand::Signer.write_le().unwrap(), vec![3]);
    assert_eq!(Operand::Caller.write_le().unwrap(), vec![4]);
    assert_eq!(Operand::BlockHeight.write_le().unwrap(), vec![5]);
    assert_eq!(Operand::NetworkID.write_le().unwrap(), vec![6]);
    assert_eq!(Operand::Checksum(None).write_le().unwrap(), vec![7, 0]);
    assert_eq!(Operand::Edition(None).write_le().unwrap(), vec![8, 0]);
    assert_eq!(Operand::ProgramOwner(None).write_le().unwrap(), vec![9, 0]);
    assert_eq!(Operand::BlockTimestamp.write_le().unwrap(), vec![10]);
    assert_eq!(Operand::AleoGenerator.write_le().unwrap(), vec![11]);
    assert_eq!(Operand::AleoGeneratorPowers(None).write_le().unwrap(), vec![12, 0]);
    assert_eq!(Operand::AleoGeneratorPowers(Some(0x0403_0201)).write_le().unwrap(), vec![12, 1, 1, 2, 3, 4]);
    assert_eq!(Operand::from_str("1field").unwrap().write_le().unwrap()[0], 0);
    assert_eq!(Operand::from_str("r0").unwrap().write_le().unwrap()[0], 1);
    assert_eq!(Operand::from_str("credits.aleo").unwrap().write_le().unwrap()[0], 2);
    let component = Operand::ComponentChecksum(None, Identifier { name: "transfer".to_string() });
    let bytes = component.write_le().unwrap();
    assert_eq!(&bytes[..2], &[13, 0]);
}

#[test]
fn operand_bytes_refuse_what_console_cannot_read() {
    // No tag, an unknown tag, and a tag with missing bytes.
    assert!(Operand::read_le(&[]).is_none());
    assert!(Operand::read_le(&[14]).is_none());
    assert!(Operand::read_le(&[12]).is_none());
    assert!(Operand::read_le(&[12, 1, 5]).is_none());
    assert!(Operand::read_le(&[7, 2]).is_none());
    // A program ID that is not one cannot be written.
    let bad = Operand::ProgramID(ProgramID { name: "not a name".to_string(), network: "aleo".to_string() });
    assert!(bad.write_le().is_none());
}
