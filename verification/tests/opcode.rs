use simplevm::opcode::OPCode;

#[test]
fn mnemonic_table_maps_every_mnemonic() {
    assert_eq!(OPCode::from_str("nop"), Some(OPCode::NOP));
    assert_eq!(OPCode::from_str("push"), Some(OPCode::PUSH));
    assert_eq!(OPCode::from_str("pop"), Some(OPCode::POP));
    assert_eq!(OPCode::from_str("load"), Some(OPCode::LOAD));
    assert_eq!(OPCode::from_str("store"), Some(OPCode::STORE));
    assert_eq!(OPCode::from_str("jmp"), Some(OPCode::JMP));
    assert_eq!(OPCode::from_str("jz"), Some(OPCode::JZ));
    assert_eq!(OPCode::from_str("jnz"), Some(OPCode::JNZ));
    assert_eq!(OPCode::from_str("add"), Some(OPCode::ADD));
    assert_eq!(OPCode::from_str("sub"), Some(OPCode::SUB));
    assert_eq!(OPCode::from_str("mul"), Some(OPCode::MUL));
    assert_eq!(OPCode::from_str("div"), Some(OPCode::DIV));
    assert_eq!(OPCode::from_str("print"), Some(OPCode::PRINT));
    assert_eq!(OPCode::from_str("stop"), Some(OPCode::STOP));
}

#[test]
fn mnemonic_table_rejects_unknown_names() {
    assert_eq!(OPCode::from_str(""), None);
    assert_eq!(OPCode::from_str("halt"), None);
    assert_eq!(OPCode::from_str("PUSH"), None);
    assert_eq!(OPCode::from_str("push "), None);
    assert_eq!(OPCode::from_str("pu"), None);
}

#[test]
fn byte_encoding_matches_the_instruction_set() {
    assert_eq!(OPCode::from_u8(0), Some(OPCode::NOP));
    assert_eq!(OPCode::from_u8(1), Some(OPCode::PUSH));
    assert_eq!(OPCode::from_u8(2), Some(OPCode::POP));
    assert_eq!(OPCode::from_u8(3), Some(OPCode::LOAD));
    assert_eq!(OPCode::from_u8(4), Some(OPCode::STORE));
    assert_eq!(OPCode::from_u8(5), Some(OPCode::JMP));
    assert_eq!(OPCode::from_u8(6), Some(OPCode::JZ));
    assert_eq!(OPCode::from_u8(7), Some(OPCode::JNZ));
    assert_eq!(OPCode::from_u8(8), Some(OPCode::ADD));
    assert_eq!(OPCode::from_u8(9), Some(OPCode::SUB));
    assert_eq!(OPCode::from_u8(10), Some(OPCode::MUL));
    assert_eq!(OPCode::from_u8(11), Some(OPCode::DIV));
    assert_eq!(OPCode::from_u8(12), Some(OPCode::PRINT));
    assert_eq!(OPCode::from_u8(13), Some(OPCode::STOP));
}

#[test]
fn bytes_outside_the_instruction_set_decode_to_nothing() {
    assert_eq!(OPCode::from_u8(14), None);
    assert_eq!(OPCode::from_u8(100), None);
    assert_eq!(OPCode::from_u8(255), None);
}

#[test]
fn byte_round_trip_through_the_table() {
    for b in 0u8..=13u8 {
        let op = OPCode::from_u8(b).unwrap();
        assert_eq!(op.to_u8(), b);
    }
}

#[test]
fn mnemonic_round_trip_through_the_table() {
    let names = [
        "nop", "push", "pop", "load", "store", "jmp", "jz", "jnz", "add", "sub", "mul", "div",
        "print", "stop",
    ];
    for (i, name) in names.iter().enumerate() {
        let op = OPCode::from_str(name).unwrap();
        assert_eq!(op.to_u8() as usize, i);
    }
}
