use assembler::{
    assemble, build_instruction, parse_line, parse_u16, Assembler, AssemblerError, Condition,
    Instruction, InstructionData, OpCode, Register,
};

fn lines(text: &[&str]) -> Vec<String> {
    text.iter().map(|l| l.to_string()).collect()
}

fn words(bytes: &[u8]) -> Vec<u16> {
    bytes.chunks(2).map(|c| u16::from_le_bytes([c[0], c[1]])).collect()
}

#[test]
fn literal_radixes() {
    assert_eq!(parse_u16("0x10").unwrap(), 16);
    assert_eq!(parse_u16("0o17").unwrap(), 15);
    assert_eq!(parse_u16("0b101").unwrap(), 5);
    assert_eq!(parse_u16("42").unwrap(), 42);
    assert_eq!(parse_u16("0xFFFF").unwrap(), 65535);
    assert_eq!(parse_u16("0").unwrap(), 0);
}

#[test]
fn literal_errors() {
    assert!(parse_u16("0xzz").is_err());
    assert!(parse_u16("65536").is_err());
    assert!(parse_u16("0x").is_err());
    assert!(parse_u16("0b102").is_err());
    assert!(parse_u16("").is_err());
}

#[test]
fn invalid_literal_in_source() {
    let err = assemble(&lines(&["addi 0xzz"])).unwrap_err();
    assert!(matches!(err, AssemblerError::InvalidIntegerLiteral(0, ref t, _) if t == "0xzz"));
}

#[test]
fn register_names_ignore_case() {
    assert!(matches!(Register::from_str("A"), Some(Register::A)));
    assert!(matches!(Register::from_str("aDdR"), Some(Register::Addr)));
    assert!(matches!(Register::from_str("PC"), Some(Register::PC)));
    assert!(Register::from_str("x").is_none());
}

#[test]
fn mov_packs_source_above_target() {
    let bytes = assemble(&lines(&["mov a, b"])).unwrap();
    let w = words(&bytes)[0];
    assert_eq!(w >> 11, 0x00);
    assert_eq!(w & 0x7ff, (1 << 3) | 0);
    let bytes = assemble(&lines(&["MOV sp, pc"])).unwrap();
    assert_eq!(words(&bytes)[0], (5 << 3) | 3);
}

#[test]
fn end_to_end_scenario() {
    let bytes = assemble(&lines(&["loop:", "ldi 1", "jmp.eq a"])).unwrap();
    assert_eq!(bytes.len(), 4);
    let w = words(&bytes);
    assert_eq!(w[0], (0x11 << 11) | 1);
    assert_eq!(w[1], (0x0C << 11) | ((0 << 3) | 2));
    let bytes = assemble(&lines(&["loop:", "ldi 1", "jmp.eq a", "ldi loop"])).unwrap();
    assert_eq!(words(&bytes)[2], (0x11 << 11) | 0);
}

#[test]
fn unknown_mnemonic() {
    let err = assemble(&lines(&["ld", "# note", "foo x"])).unwrap_err();
    assert!(matches!(err, AssemblerError::InvalidInstruction(2, ref m) if m == "foo"));
    let err = assemble(&lines(&["FOO x"])).unwrap_err();
    assert!(matches!(err, AssemblerError::InvalidInstruction(0, ref m) if m == "foo"));
}

#[test]
fn forward_and_backward_references() {
    let src = lines(&["ldi end", "start: ld", "", "  # only a comment", "ldi start", "end: st"]);
    let w = words(&assemble(&src).unwrap());
    assert_eq!(w.len(), 4);
    assert_eq!(w[0], (0x11 << 11) | 3);
    assert_eq!(w[2], (0x11 << 11) | 1);
}

#[test]
fn label_on_its_own_line_takes_next_address() {
    let src = lines(&["ld", "here:", "", "there: st", "ldi here", "ldi there"]);
    let w = words(&assemble(&src).unwrap());
    assert_eq!(w[2], (0x11 << 11) | 1);
    assert_eq!(w[3], (0x11 << 11) | 1);
}

#[test]
fn duplicate_label() {
    let err = assemble(&lines(&["x: ld", "st", "x: ld"])).unwrap_err();
    assert!(matches!(err, AssemblerError::DuplicateLabel(2, ref l) if l == "x"));
}

#[test]
fn labels_are_case_sensitive() {
    let w = words(&assemble(&lines(&["x: ld", "X: st", "ldi X"])).unwrap());
    assert_eq!(w[2], (0x11 << 11) | 1);
}

#[test]
fn undefined_label_after_full_scan() {
    let err = assemble(&lines(&["ldi nowhere", "ld"])).unwrap_err();
    assert!(matches!(err, AssemblerError::UndefinedLabel(ref l) if l == "nowhere"));
    let err = assemble(&lines(&["ldi nowhere", "ld", "!!"])).unwrap_err();
    assert!(matches!(err, AssemblerError::Syntax(2, ref l) if l == "!!"));
}

#[test]
fn syntax_errors() {
    let err = assemble(&lines(&["mov a, b, c, d"])).unwrap_err();
    assert!(matches!(err, AssemblerError::Syntax(0, _)));
    let err = assemble(&lines(&["ld", "ldi 1,"])).unwrap_err();
    assert!(matches!(err, AssemblerError::Syntax(1, ref l) if l == "ldi 1,"));
    assert!(parse_line("1abc").is_none());
}

#[test]
fn operand_count_errors() {
    let err = assemble(&lines(&["mov"])).unwrap_err();
    assert!(matches!(err, AssemblerError::MissingOperand(0, ref r) if r == "target register"));
    let err = assemble(&lines(&["mov a"])).unwrap_err();
    assert!(matches!(err, AssemblerError::MissingOperand(0, ref r) if r == "source register"));
    let err = assemble(&lines(&["ldi"])).unwrap_err();
    assert!(matches!(err, AssemblerError::MissingOperand(0, ref r) if r == "value"));
    let err = assemble(&lines(&["jmp"])).unwrap_err();
    assert!(matches!(err, AssemblerError::MissingOperand(0, ref r) if r == "source register"));
    let err = assemble(&lines(&["mov a, b, c"])).unwrap_err();
    assert!(matches!(err, AssemblerError::TooManyOperands(0)));
    let err = assemble(&lines(&["addi 1, 2"])).unwrap_err();
    assert!(matches!(err, AssemblerError::TooManyOperands(0)));
    let err = assemble(&lines(&["add a"])).unwrap_err();
    assert!(matches!(err, AssemblerError::TooManyOperands(0)));
}

#[test]
fn register_and_condition_errors() {
    let err = assemble(&lines(&["mov a, q"])).unwrap_err();
    assert!(matches!(err, AssemblerError::InvalidRegister(0, ref r) if r == "q"));
    let err = assemble(&lines(&["jmp.xx a"])).unwrap_err();
    assert!(matches!(err, AssemblerError::InvalidCondition(0, ref m) if m == "jmp.xx"));
}

#[test]
fn all_conditions_encode() {
    let src = lines(&["jmp b", "jmp.z b", "jmp.eq b", "jmp.ne b", "jmp.lt b", "jmp.le b", "jmp.gt b", "JMP.GE b"]);
    let w = words(&assemble(&src).unwrap());
    for (c, word) in w.iter().enumerate() {
        assert_eq!(*word, (0x0C << 11) | (1 << 3) | c as u16);
    }
}

#[test]
fn encode_decode_round_trip() {
    let src = lines(&["mov addr, sr", "andi 0x7ff", "jmp.gt pc", "not"]);
    let w = words(&assemble(&src).unwrap());
    assert_eq!(w[0] >> 11, 0x00);
    assert_eq!(w[0] & 7, 2);
    assert_eq!((w[0] >> 3) & 7, 4);
    assert_eq!(w[1] >> 11, 0x13);
    assert_eq!(w[1] & 0x7ff, 0x7ff);
    assert_eq!(w[2] >> 11, 0x0C);
    assert_eq!(w[2] & 7, 6);
    assert_eq!((w[2] >> 3) & 7, 5);
    assert_eq!(w[3], 0x06 << 11);
}

#[test]
fn wide_immediate_is_masked() {
    let w = words(&assemble(&lines(&["ldi 0xffff"])).unwrap());
    assert_eq!(w[0], (0x11 << 11) | 0x7ff);
}

#[test]
fn address_space_exhausted() {
    let src: Vec<String> = (0..65536).map(|_| "ld".to_string()).collect();
    let err = assemble(&src).unwrap_err();
    assert!(matches!(err, AssemblerError::AddressSpaceExhausted()));
}

#[test]
fn largest_program_fits() {
    let mut src: Vec<String> = (0..65535).map(|_| "ld".to_string()).collect();
    src.push("last:".to_string());
    src.push("# trailing".to_string());
    let bytes = assemble(&src).unwrap();
    assert_eq!(bytes.len(), 2 * 65535);
}

#[test]
fn parse_line_parts() {
    let p = parse_line("  start :  Jmp.Eq  a  # go").unwrap();
    assert_eq!(p.label.as_deref(), Some("start"));
    assert_eq!(p.mnemonic.as_deref(), Some("Jmp.Eq"));
    assert_eq!(p.operands, vec!["a".to_string()]);
    let p = parse_line("mov a ,b").unwrap();
    assert_eq!(p.operands, vec!["a".to_string(), "b".to_string()]);
    let p = parse_line("").unwrap();
    assert!(p.label.is_none() && p.mnemonic.is_none());
    let p = parse_line("_x1:").unwrap();
    assert_eq!(p.label.as_deref(), Some("_x1"));
}

#[test]
fn unicode_word_characters() {
    let p = parse_line("ldi café").unwrap();
    assert_eq!(p.operands, vec!["café".to_string()]);
    let w = words(&assemble(&lines(&["ldi café", "café: ld"])).unwrap());
    assert_eq!(w[0], (0x11 << 11) | 1);
    assert!(parse_line("ldi\u{3000}1").is_some());
}

#[test]
fn ldi_label_versus_literal() {
    let i = build_instruction(0, "ldi", &vec!["abc".to_string()]).unwrap();
    assert!(matches!(i.data, InstructionData::Immediate1Reference(ref n) if n == "abc"));
    let i = build_instruction(0, "ldi", &vec!["0x2A".to_string()]).unwrap();
    assert!(matches!(i.data, InstructionData::Immediate1(42)));
    let err = build_instruction(3, "ldi", &vec!["_abc".to_string()]).unwrap_err();
    assert!(matches!(err, AssemblerError::InvalidIntegerLiteral(3, _, _)));
    let err = build_instruction(0, "andi", &vec!["abc".to_string()]).unwrap_err();
    assert!(matches!(err, AssemblerError::InvalidIntegerLiteral(0, _, _)));
}

#[test]
fn instruction_encoding() {
    let i = Instruction::new(OpCode::JMP, InstructionData::Jump(Condition::LessThan, Register::SP));
    assert_eq!(i.size(), 1);
    assert_eq!(i.encode(), (0x0C << 11) | (3 << 3) | 4);
    let i = Instruction::new(OpCode::CMPI, InstructionData::Immediate1(0x1234));
    assert_eq!(i.encode(), (0x1B << 11) | (0x1234 & 0x7ff));
}

#[test]
fn incremental_passes() {
    let mut pass = Assembler::new();
    pass.add_line(0, "top: ldi top").unwrap();
    pass.add_line(1, "jmp a").unwrap();
    let resolved = pass.resolve().unwrap();
    assert!(matches!(resolved[0].data, InstructionData::Immediate1(0)));
    let bytes = pass.finish().unwrap();
    assert_eq!(bytes, vec![0x00, 0x88, 0x00, 0x60]);
    assert!(matches!(pass.add_line(2, "top: ld"), Err(AssemblerError::DuplicateLabel(2, _))));
}
