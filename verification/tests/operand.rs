use synthesizer_program::operand::{Identifier, Literal, Operand, ParseError, ProgramID, Register};

fn parse(s: &str) -> (String, Operand) {
    Operand::parse(s).unwrap()
}

fn program_id(name: &str) -> ProgramID {
    ProgramID { name: name.to_string(), network: "aleo".to_string() }
}

fn identifier(name: &str) -> Identifier {
    Identifier { name: name.to_string() }
}

#[test]
fn test_operand_parse() {
    assert_eq!(Operand::Literal(Literal { text: "1field".to_string() }), parse("1field").1);
    assert_eq!(
        Operand::Register(Register { locator: 0, is_locator: true, text: "r0".to_string() }),
        parse("r0").1
    );
    assert_eq!(
        Operand::Register(Register { locator: 0, is_locator: false, text: "r0.owner".to_string() }),
        parse("r0.owner").1
    );
    assert_eq!(Operand::ProgramID(program_id("howard")), parse("howard.aleo").1);
    assert_eq!(Operand::Signer, parse("self.signer").1);
    assert_eq!(Operand::Caller, parse("self.caller").1);
    assert_eq!(Operand::BlockHeight, parse("block.height").1);
    assert_eq!(Operand::BlockTimestamp, parse("block.timestamp").1);
    assert_eq!(Operand::NetworkID, parse("network.id").1);
    assert_eq!(Operand::AleoGenerator, parse("aleo::GENERATOR").1);
    assert_eq!(Operand::AleoGeneratorPowers(None), parse("aleo::GENERATOR_POWERS").1);
    assert_eq!(Operand::AleoGeneratorPowers(Some(5)), parse("aleo::GENERATOR_POWERS[5u32]").1);
    assert_eq!(
        Operand::Literal(Literal {
            text: "1540945439182663264862696551825005342995406165131907382295858612069623286213group".to_string()
        }),
        parse("group::GEN").1
    );
    assert_eq!(Operand::Checksum(None), parse("checksum").1);
    assert_eq!(Operand::Checksum(Some(program_id("token"))), parse("token.aleo/checksum").1);
    assert_eq!(Operand::Edition(None), parse("edition").1);
    assert_eq!(Operand::Edition(Some(program_id("token"))), parse("token.aleo/edition").1);
    assert_eq!(Operand::ProgramOwner(None), parse("program_owner").1);
    assert_eq!(Operand::ProgramOwner(Some(program_id("token"))), parse("token.aleo/program_owner").1);
    assert_eq!(Operand::ComponentChecksum(None, identifier("transfer")), parse("transfer/checksum").1);
    assert_eq!(
        Operand::ComponentChecksum(Some(program_id("token")), identifier("transfer")),
        parse("token.aleo/transfer/checksum").1
    );

    // A bare `checksum` (and `program/checksum`) is the program checksum, not a component's.
    assert_eq!(Operand::Checksum(None), parse("checksum").1);
    assert_eq!(Operand::Checksum(Some(program_id("token"))), parse("token.aleo/checksum").1);

    // Component names that collide with operand keywords are component checksums and print back.
    for name in ["checksum", "edition", "program_owner", "edition_v2", "checksums", "program_owner_x"] {
        let operand = parse(&format!("{name}/checksum")).1;
        assert_eq!(Operand::ComponentChecksum(None, identifier(name)), operand);
        assert_eq!(operand.to_string(), format!("{name}/checksum"));
    }

    // The rest of the text is handed back.
    let (remainder, operand) = parse("1field.private");
    assert_eq!(Operand::Literal(Literal { text: "1field".to_string() }), operand);
    assert_eq!(".private", remainder);
}

#[test]
fn test_operand_display() {
    let cases = [
        ("1field", "1field"),
        ("r0", "r0"),
        ("r0.owner", "r0.owner"),
        ("howard.aleo", "howard.aleo"),
        ("self.signer", "self.signer"),
        ("self.caller", "self.caller"),
        ("checksum", "checksum"),
        ("aleo::GENERATOR", "aleo::GENERATOR"),
        ("aleo::GENERATOR_POWERS", "aleo::GENERATOR_POWERS"),
        ("aleo::GENERATOR_POWERS[5u32]", "aleo::GENERATOR_POWERS[5u32]"),
        ("foo.aleo/checksum", "foo.aleo/checksum"),
        ("edition", "edition"),
        ("foo.aleo/edition", "foo.aleo/edition"),
        ("program_owner", "program_owner"),
        ("foo.aleo/program_owner", "foo.aleo/program_owner"),
        ("transfer/checksum", "transfer/checksum"),
        ("foo.aleo/transfer/checksum", "foo.aleo/transfer/checksum"),
        ("group::GEN", "1540945439182663264862696551825005342995406165131907382295858612069623286213group"),
    ];
    for (input, printed) in cases {
        let operand = parse(input).1;
        assert_eq!(operand.to_string(), printed);
    }
}

#[test]
fn test_operand_from_str_fails() {
    assert!(Operand::from_str("1field.private").is_err());
}

#[test]
fn operand_from_str_reports_the_trailing_text() {
    assert_eq!(Operand::from_str("1field.private"), Err(ParseError::Trailing(".private".to_string())));
    assert_eq!(Operand::from_str("*"), Err(ParseError::Rejected));
    assert_eq!(Operand::from_str("r7"), Ok(Operand::Register(Register { locator: 7, is_locator: true, text: "r7".to_string() })));
}

#[test]
fn operand_parse_prints_back_what_it_read() {
    for text in ["5u8", "r3[0u32]", "network.id", "credits.aleo", "aleo::GENERATOR_POWERS[12u32]"] {
        let (rest, operand) = parse(text);
        assert_eq!(rest, "");
        assert_eq!(operand.to_string(), text);
    }
}
