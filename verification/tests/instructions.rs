use chip8_core::instructions::{Address, Instruction, Register, RegisterRange, Value4, Value8};
use chip8_core::Error;

fn decode(hi: u8, lo: u8) -> Result<Instruction, Error> {
    Instruction::try_from([hi, lo].as_ref())
}

#[test]
fn address() {
    assert_eq!(Address::from((0x0A, 0x0B, 0x0C)), Address(0xABC));
    assert_eq!(Address::from((0x1A, 0x2B, 0x4C)), Address(0xABC));
}

#[test]
fn instructions_address() {
    assert_eq!(Address::from((0x0A, 0x0B, 0x0C)), Address(0xABC));
    assert_eq!(Address::from((0x1A, 0x2B, 0x4C)), Address(0xABC));
}

#[test]
fn register() {
    assert_eq!(Register::from(0x0A), Register(0x0A));
    assert_eq!(Register::from(0x1A), Register(0x0A));
}

#[test]
fn instructions_register() {
    assert_eq!(Register::from(0x0A), Register(0x0A));
    assert_eq!(Register::from(0x1A), Register(0x0A));
}

#[test]
fn register_range() {
    assert_eq!(RegisterRange::from(0x0A), RegisterRange(0x0A));
    assert_eq!(RegisterRange::from(0x1A), RegisterRange(0x0A));
}

#[test]
fn value8() {
    assert_eq!(Value8::from((0x0A, 0x0B)), Value8(0xAB));
    assert_eq!(Value8::from((0x1A, 0x2B)), Value8(0xAB));
}

#[test]
fn instructions_value8() {
    assert_eq!(Value8::from((0x0A, 0x0B)), Value8(0xAB));
    assert_eq!(Value8::from((0x1A, 0x2B)), Value8(0xAB));
}

#[test]
fn value4() {
    assert_eq!(Value4::from(0x0A), Value4(0x0A));
    assert_eq!(Value4::from(0x1A), Value4(0x0A));
}

#[test]
fn instructions_value4() {
    assert_eq!(Value4::from(0x0A), Value4(0x0A));
    assert_eq!(Value4::from(0x1A), Value4(0x0A));
}

#[test]
fn decode_0_ok() {
    assert_eq!(decode(0x00, 0xE0), Ok(Instruction::I00E0));
    assert_eq!(decode(0x00, 0xEE), Ok(Instruction::I00EE));
    assert_eq!(decode(0x02, 0x00), Ok(Instruction::I0NNN(Address(0x200))));
    assert_eq!(decode(0x0F, 0xFF), Ok(Instruction::I0NNN(Address(0xFFF))));
}

#[test]
fn instructions_decode_0_ok() {
    assert_eq!(decode(0x00, 0xE0), Ok(Instruction::I00E0));
    assert_eq!(decode(0x00, 0xEE), Ok(Instruction::I00EE));
    assert_eq!(decode(0x02, 0x00), Ok(Instruction::I0NNN(Address(0x200))));
    assert_eq!(decode(0x0F, 0xFF), Ok(Instruction::I0NNN(Address(0xFFF))));
}

#[test]
fn decode_0_err() {
    assert_eq!(decode(0x00, 0x00), Err(Error::InvalidInstruction(0x0000)));
    assert_eq!(decode(0x01, 0xFF), Err(Error::InvalidInstruction(0x01FF)));
}

#[test]
fn instructions_decode_0_err() {
    assert_eq!(decode(0x00, 0x00), Err(Error::InvalidInstruction(0x0000)));
    assert_eq!(decode(0x01, 0xFF), Err(Error::InvalidInstruction(0x01FF)));
}

#[test]
fn decode_unconditional_shapes() {
    assert_eq!(decode(0x12, 0x34), Ok(Instruction::I1NNN(Address(0x234))));
    assert_eq!(decode(0x2A, 0xBC), Ok(Instruction::I2NNN(Address(0xABC))));
    assert_eq!(
        decode(0x3A, 0x7F),
        Ok(Instruction::I3XNN(Register(0xA), Value8(0x7F)))
    );
    assert_eq!(
        decode(0x41, 0x00),
        Ok(Instruction::I4XNN(Register(0x1), Value8(0x00)))
    );
    assert_eq!(
        decode(0x6B, 0xCD),
        Ok(Instruction::I6XNN(Register(0xB), Value8(0xCD)))
    );
    assert_eq!(
        decode(0x7F, 0x01),
        Ok(Instruction::I7XNN(Register(0xF), Value8(0x01)))
    );
    assert_eq!(decode(0xA1, 0x23), Ok(Instruction::IANNN(Address(0x123))));
    assert_eq!(decode(0xBF, 0xFF), Ok(Instruction::IBNNN(Address(0xFFF))));
    assert_eq!(
        decode(0xC4, 0x0F),
        Ok(Instruction::ICXNN(Register(0x4), Value8(0x0F)))
    );
    assert_eq!(
        decode(0xD1, 0x25),
        Ok(Instruction::IDXYN(Register(0x1), Register(0x2), Value4(0x5)))
    );
}

#[test]
fn decode_5_9_sub_dispatch() {
    assert_eq!(
        decode(0x51, 0x20),
        Ok(Instruction::I5XY0(Register(0x1), Register(0x2)))
    );
    assert_eq!(decode(0x51, 0x21), Err(Error::InvalidInstruction(0x5121)));
    assert_eq!(decode(0x51, 0x2F), Err(Error::InvalidInstruction(0x512F)));
    assert_eq!(
        decode(0x9A, 0xB0),
        Ok(Instruction::I9XY0(Register(0xA), Register(0xB)))
    );
    assert_eq!(decode(0x9A, 0xB7), Err(Error::InvalidInstruction(0x9AB7)));
}

#[test]
fn decode_8_sub_dispatch() {
    let x = Register(0x3);
    let y = Register(0x4);
    assert_eq!(decode(0x83, 0x40), Ok(Instruction::I8XY0(x, y)));
    assert_eq!(decode(0x83, 0x41), Ok(Instruction::I8XY1(x, y)));
    assert_eq!(decode(0x83, 0x42), Ok(Instruction::I8XY2(x, y)));
    assert_eq!(decode(0x83, 0x43), Ok(Instruction::I8XY3(x, y)));
    assert_eq!(decode(0x83, 0x44), Ok(Instruction::I8XY4(x, y)));
    assert_eq!(decode(0x83, 0x45), Ok(Instruction::I8XY5(x, y)));
    assert_eq!(decode(0x83, 0x46), Ok(Instruction::I8XY6(x, y)));
    assert_eq!(decode(0x83, 0x47), Ok(Instruction::I8XY7(x, y)));
    assert_eq!(decode(0x83, 0x4E), Ok(Instruction::I8XYE(x, y)));
    assert_eq!(decode(0x83, 0x48), Err(Error::InvalidInstruction(0x8348)));
    assert_eq!(decode(0x83, 0x49), Err(Error::InvalidInstruction(0x8349)));
    assert_eq!(decode(0x83, 0x4D), Err(Error::InvalidInstruction(0x834D)));
    assert_eq!(decode(0x83, 0x4F), Err(Error::InvalidInstruction(0x834F)));
}

#[test]
fn decode_e_sub_dispatch() {
    assert_eq!(decode(0xE2, 0x9E), Ok(Instruction::IEX9E(Register(0x2))));
    assert_eq!(decode(0xE2, 0xA1), Ok(Instruction::IEXA1(Register(0x2))));
    assert_eq!(decode(0xE2, 0x9F), Err(Error::InvalidInstruction(0xE29F)));
    assert_eq!(decode(0xE2, 0x00), Err(Error::InvalidInstruction(0xE200)));
}

#[test]
fn decode_f_sub_dispatch() {
    let x = Register(0x7);
    assert_eq!(decode(0xF7, 0x07), Ok(Instruction::IFX07(x)));
    assert_eq!(decode(0xF7, 0x0A), Ok(Instruction::IFX0A(x)));
    assert_eq!(decode(0xF7, 0x15), Ok(Instruction::IFX15(x)));
    assert_eq!(decode(0xF7, 0x18), Ok(Instruction::IFX18(x)));
    assert_eq!(decode(0xF7, 0x1E), Ok(Instruction::IFX1E(x)));
    assert_eq!(decode(0xF7, 0x29), Ok(Instruction::IFX29(x)));
    assert_eq!(decode(0xF7, 0x33), Ok(Instruction::IFX33(x)));
    assert_eq!(decode(0xF7, 0x55), Ok(Instruction::IFX55(RegisterRange(0x7))));
    assert_eq!(decode(0xF7, 0x65), Ok(Instruction::IFX65(RegisterRange(0x7))));
    assert_eq!(decode(0xF7, 0x08), Err(Error::InvalidInstruction(0xF708)));
    assert_eq!(decode(0xF7, 0xFF), Err(Error::InvalidInstruction(0xF7FF)));
}

#[test]
fn decode_short_slice() {
    assert_eq!(
        Instruction::try_from([0x12].as_ref()),
        Err(Error::InvalidAlignment)
    );
    assert_eq!(Instruction::try_from([].as_ref()), Err(Error::InvalidAlignment));
}

#[test]
fn mnemonics() {
    assert_eq!(decode(0x00, 0xE0).unwrap().mnemonic(), "CLS");
    assert_eq!(decode(0x00, 0xEE).unwrap().mnemonic(), "RET");
    assert_eq!(decode(0x02, 0x00).unwrap().mnemonic(), "SYS 200");
    assert_eq!(decode(0x12, 0x34).unwrap().mnemonic(), "JP 234");
    assert_eq!(decode(0x2A, 0xBC).unwrap().mnemonic(), "CALL ABC");
    assert_eq!(decode(0x3A, 0x7F).unwrap().mnemonic(), "SE VA, 7F");
    assert_eq!(decode(0x41, 0x00).unwrap().mnemonic(), "SNE V1, 00");
    assert_eq!(decode(0x51, 0x20).unwrap().mnemonic(), "SE V1, V2");
    assert_eq!(decode(0x6B, 0xCD).unwrap().mnemonic(), "LD VB, CD");
    assert_eq!(decode(0x7F, 0x01).unwrap().mnemonic(), "ADD VF, 01");
    assert_eq!(decode(0x83, 0x40).unwrap().mnemonic(), "LD V3, V4");
    assert_eq!(decode(0x83, 0x41).unwrap().mnemonic(), "OR V3, V4");
    assert_eq!(decode(0x83, 0x42).unwrap().mnemonic(), "AND V3, V4");
    assert_eq!(decode(0x83, 0x43).unwrap().mnemonic(), "XOR V3, V4");
    assert_eq!(decode(0x83, 0x44).unwrap().mnemonic(), "ADD V3, V4");
    assert_eq!(decode(0x83, 0x45).unwrap().mnemonic(), "SUB V3, V4");
    assert_eq!(decode(0x83, 0x46).unwrap().mnemonic(), "SHR V3 {,V4}");
    assert_eq!(decode(0x83, 0x47).unwrap().mnemonic(), "SUBN V3, V4");
    assert_eq!(decode(0x83, 0x4E).unwrap().mnemonic(), "SHL V3 {,V4}");
    assert_eq!(decode(0x9A, 0xB0).unwrap().mnemonic(), "SNE VA, VB");
    assert_eq!(decode(0xA1, 0x23).unwrap().mnemonic(), "LD I, 123");
    assert_eq!(decode(0xBF, 0xFF).unwrap().mnemonic(), "JP V0, FFF");
    assert_eq!(decode(0xC4, 0x0F).unwrap().mnemonic(), "RND V4, 0F");
    assert_eq!(decode(0xD1, 0x25).unwrap().mnemonic(), "DRW V1, V2, 5");
    assert_eq!(decode(0xE2, 0x9E).unwrap().mnemonic(), "SKP V2");
    assert_eq!(decode(0xE2, 0xA1).unwrap().mnemonic(), "SKNP V2");
    assert_eq!(decode(0xF7, 0x07).unwrap().mnemonic(), "LD V7, DT");
    assert_eq!(decode(0xF7, 0x0A).unwrap().mnemonic(), "LD V7, K");
    assert_eq!(decode(0xF7, 0x15).unwrap().mnemonic(), "LD DT, V7");
    assert_eq!(decode(0xF7, 0x18).unwrap().mnemonic(), "LD ST, V7");
    assert_eq!(decode(0xF7, 0x1E).unwrap().mnemonic(), "ADD I, V7");
    assert_eq!(decode(0xF7, 0x29).unwrap().mnemonic(), "LD F, V7");
    assert_eq!(decode(0xF7, 0x33).unwrap().mnemonic(), "LD B, V7");
    assert_eq!(decode(0xF7, 0x55).unwrap().mnemonic(), "LD [I], V7");
    assert_eq!(decode(0xF7, 0x65).unwrap().mnemonic(), "LD V7, [I]");
}
