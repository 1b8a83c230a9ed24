//! The CHIP-8 instruction set: typed operands, the instruction enum, and the
//! decoder from a 2-byte big-endian opcode to a typed instruction.

use crate::Error;
use vstd::prelude::*;
use vstd::string::StringExecFns;

verus! {

/// A general-purpose register index, masked to 4 bits (`V0`..`VF`).
#[derive(Clone, Copy, Debug, PartialEq, Eq, Structural)]
pub struct Register(pub u8);

impl From<u8> for Register {
    fn from(val: u8) -> (r: Self) {
        proof {
            assert(val & 0x0F < 16) by (bit_vector);
        }
        Register(val & 0x0F)
    }
}

impl vstd::std_specs::convert::FromSpecImpl<u8> for Register {
    open spec fn obeys_from_spec() -> bool {
        true
    }

    open spec fn from_spec(val: u8) -> Self {
        Register(val & 0x0F)
    }
}

/// An inclusive upper register bound `V0..=Vx`, masked to 4 bits; used only
/// by the bulk load/store instructions.
#[derive(Clone, Copy, Debug, PartialEq, Eq, Structural)]
pub struct RegisterRange(pub u8);

impl From<u8> for RegisterRange {
    fn from(val: u8) -> (r: Self) {
        proof {
            assert(val & 0x0F < 16) by (bit_vector);
        }
        RegisterRange(val & 0x0F)
    }
}

impl vstd::std_specs::convert::FromSpecImpl<u8> for RegisterRange {
    open spec fn obeys_from_spec() -> bool {
        true
    }

    open spec fn from_spec(val: u8) -> Self {
        RegisterRange(val & 0x0F)
    }
}

/// A 12-bit memory address operand.
#[derive(Clone, Copy, Debug, PartialEq, Eq, Structural)]
pub struct Address(pub u16);

/// The value an [`Address`] takes when built from the three low nibbles
/// `(a, b, c)` of an opcode.
pub open spec fn spec_address_from_nibbles(a: u8, b: u8, c: u8) -> u16 {
    (((a as u16) << 8) & 0xF00) | (((b as u16) << 4) & 0x0F0) | ((c as u16) & 0x00F)
}

/// A 12-bit address operand always lies below `0x1000`.
pub proof fn lemma_address_from_nibbles_bound(a: u8, b: u8, c: u8)
    by (bit_vector)
    ensures
        spec_address_from_nibbles(a, b, c) < 0x1000,
{
}

impl From<(u8, u8, u8)> for Address {
    fn from(val: (u8, u8, u8)) -> (r: Self) {
        proof {
            lemma_address_from_nibbles_bound(val.0, val.1, val.2);
        }
        Address(
            (((val.0 as u16) << 8) & 0xF00) | (((val.1 as u16) << 4) & 0x0F0) | ((val.2 as u16)
                & 0x00F),
        )
    }
}

impl vstd::std_specs::convert::FromSpecImpl<(u8, u8, u8)> for Address {
    open spec fn obeys_from_spec() -> bool {
        true
    }

    open spec fn from_spec(val: (u8, u8, u8)) -> Self {
        Address(spec_address_from_nibbles(val.0, val.1, val.2))
    }
}

/// An 8-bit immediate operand.
#[derive(Clone, Copy, Debug, PartialEq, Eq, Structural)]
pub struct Value8(pub u8);

impl From<(u8, u8)> for Value8 {
    fn from(val: (u8, u8)) -> (r: Self) {
        Value8((val.0 << 4) | (val.1 & 0x0F))
    }
}

impl vstd::std_specs::convert::FromSpecImpl<(u8, u8)> for Value8 {
    open spec fn obeys_from_spec() -> bool {
        true
    }

    open spec fn from_spec(val: (u8, u8)) -> Self {
        Value8((val.0 << 4) | (val.1 & 0x0F))
    }
}

/// A 4-bit immediate operand, masked to 4 bits.
#[derive(Clone, Copy, Debug, PartialEq, Eq, Structural)]
pub struct Value4(pub u8);

impl From<u8> for Value4 {
    fn from(val: u8) -> (r: Self) {
        proof {
            assert(val & 0x0F < 16) by (bit_vector);
        }
        Value4(val & 0x0F)
    }
}

impl vstd::std_specs::convert::FromSpecImpl<u8> for Value4 {
    open spec fn obeys_from_spec() -> bool {
        true
    }

    open spec fn from_spec(val: u8) -> Self {
        Value4(val & 0x0F)
    }
}

/// One of the 34 typed CHIP-8 instructions, named after its opcode pattern.
#[derive(Clone, Debug, PartialEq, Eq, Structural)]
pub enum Instruction {
    I0NNN(Address),
    I00E0,
    I00EE,
    I1NNN(Address),
    I2NNN(Address),
    I3XNN(Register, Value8),
    I4XNN(Register, Value8),
    I5XY0(Register, Register),
    I6XNN(Register, Value8),
    I7XNN(Register, Value8),
    I8XY0(Register, Register),
    I8XY1(Register, Register),
    I8XY2(Register, Register),
    I8XY3(Register, Register),
    I8XY4(Register, Register),
    I8XY5(Register, Register),
    I8XY6(Register, Register),
    I8XY7(Register, Register),
    I8XYE(Register, Register),
    I9XY0(Register, Register),
    IANNN(Address),
    IBNNN(Address),
    ICXNN(Register, Value8),
    IDXYN(Register, Register, Value4),
    IEX9E(Register),
    IEXA1(Register),
    IFX07(Register),
    IFX0A(Register),
    IFX15(Register),
    IFX18(Register),
    IFX1E(Register),
    IFX29(Register),
    IFX33(Register),
    IFX55(RegisterRange),
    IFX65(RegisterRange),
}

/// The 16-bit opcode held in two big-endian bytes.
pub open spec fn spec_opcode(hi: u8, lo: u8) -> u16 {
    ((hi as u16) << 8) | (lo as u16)
}

/// Sub-dispatch for top nibble `0x0`: only the two exact matches and
/// addresses inside the legal program region are valid.
pub open spec fn spec_decode_0(nnn: Address) -> Result<Instruction, ()> {
    if nnn.0 == 0x00E0 {
        Ok(Instruction::I00E0)
    } else if nnn.0 == 0x00EE {
        Ok(Instruction::I00EE)
    } else if 0x0200 <= nnn.0 && nnn.0 <= 0x0FFF {
        Ok(Instruction::I0NNN(nnn))
    } else {
        Err(())
    }
}

/// Sub-dispatch for top nibble `0x5`: only bottom nibble `0x0` is valid.
pub open spec fn spec_decode_5(x: Register, y: Register, v: Value4) -> Result<Instruction, ()> {
    if v.0 == 0x0 {
        Ok(Instruction::I5XY0(x, y))
    } else {
        Err(())
    }
}

/// Sub-dispatch for top nibble `0x8`: the bottom nibble selects one of
/// nine register-register operations.
pub open spec fn spec_decode_8(x: Register, y: Register, v: Value4) -> Result<Instruction, ()> {
    if v.0 == 0x0 {
        Ok(Instruction::I8XY0(x, y))
    } else if v.0 == 0x1 {
        Ok(Instruction::I8XY1(x, y))
    } else if v.0 == 0x2 {
        Ok(Instruction::I8XY2(x, y))
    } else if v.0 == 0x3 {
        Ok(Instruction::I8XY3(x, y))
    } else if v.0 == 0x4 {
        Ok(Instruction::I8XY4(x, y))
    } else if v.0 == 0x5 {
        Ok(Instruction::I8XY5(x, y))
    } else if v.0 == 0x6 {
        Ok(Instruction::I8XY6(x, y))
    } else if v.0 == 0x7 {
        Ok(Instruction::I8XY7(x, y))
    } else if v.0 == 0xE {
        Ok(Instruction::I8XYE(x, y))
    } else {
        Err(())
    }
}

/// Sub-dispatch for top nibble `0x9`: only bottom nibble `0x0` is valid.
pub open spec fn spec_decode_9(x: Register, y: Register, v: Value4) -> Result<Instruction, ()> {
    if v.0 == 0x0 {
        Ok(Instruction::I9XY0(x, y))
    } else {
        Err(())
    }
}

/// Sub-dispatch for top nibble `0xE`: the bottom byte selects one of the
/// two key-skip instructions.
pub open spec fn spec_decode_e(x: Register, vv: Value8) -> Result<Instruction, ()> {
    if vv.0 == 0x9E {
        Ok(Instruction::IEX9E(x))
    } else if vv.0 == 0xA1 {
        Ok(Instruction::IEXA1(x))
    } else {
        Err(())
    }
}

/// Sub-dispatch for top nibble `0xF`: the bottom byte selects one of nine
/// register, timer or memory-block operations.
pub open spec fn spec_decode_f(x: Register, vv: Value8) -> Result<Instruction, ()> {
    if vv.0 == 0x07 {
        Ok(Instruction::IFX07(x))
    } else if vv.0 == 0x0A {
        Ok(Instruction::IFX0A(x))
    } else if vv.0 == 0x15 {
        Ok(Instruction::IFX15(x))
    } else if vv.0 == 0x18 {
        Ok(Instruction::IFX18(x))
    } else if vv.0 == 0x1E {
        Ok(Instruction::IFX1E(x))
    } else if vv.0 == 0x29 {
        Ok(Instruction::IFX29(x))
    } else if vv.0 == 0x33 {
        Ok(Instruction::IFX33(x))
    } else if vv.0 == 0x55 {
        Ok(Instruction::IFX55(RegisterRange(x.0)))
    } else if vv.0 == 0x65 {
        Ok(Instruction::IFX65(RegisterRange(x.0)))
    } else {
        Err(())
    }
}

/// Decode a 16-bit opcode by dispatch on its top nibble; `None` means the
/// pattern is not a CHIP-8 instruction.
pub open spec fn spec_decode(ins: u16) -> Option<Instruction> {
    let n = (ins >> 12) as u8;
    let a = (ins >> 8) as u8;
    let b = (ins >> 4) as u8;
    let c = ins as u8;
    let nnn = Address(spec_address_from_nibbles(a, b, c));
    let x = Register(a & 0x0F);
    let y = Register(b & 0x0F);
    let vv = Value8((b << 4) | (c & 0x0F));
    let v = Value4(c & 0x0F);
    let decoded = if n == 0x0 {
        spec_decode_0(nnn)
    } else if n == 0x1 {
        Ok(Instruction::I1NNN(nnn))
    } else if n == 0x2 {
        Ok(Instruction::I2NNN(nnn))
    } else if n == 0x3 {
        Ok(Instruction::I3XNN(x, vv))
    } else if n == 0x4 {
        Ok(Instruction::I4XNN(x, vv))
    } else if n == 0x5 {
        spec_decode_5(x, y, v)
    } else if n == 0x6 {
        Ok(Instruction::I6XNN(x, vv))
    } else if n == 0x7 {
        Ok(Instruction::I7XNN(x, vv))
    } else if n == 0x8 {
        spec_decode_8(x, y, v)
    } else if n == 0x9 {
        spec_decode_9(x, y, v)
    } else if n == 0xA {
        Ok(Instruction::IANNN(nnn))
    } else if n == 0xB {
        Ok(Instruction::IBNNN(nnn))
    } else if n == 0xC {
        Ok(Instruction::ICXNN(x, vv))
    } else if n == 0xD {
        Ok(Instruction::IDXYN(x, y, v))
    } else if n == 0xE {
        spec_decode_e(x, vv)
    } else if n == 0xF {
        spec_decode_f(x, vv)
    } else {
        Err(())
    };
    match decoded {
        Ok(i) => Some(i),
        Err(_) => None,
    }
}

impl Instruction {
    /// Every operand of a decoded instruction lies within its field's range.
    pub open spec fn operands_ok(&self) -> bool {
        match *self {
            Instruction::I0NNN(nnn) => nnn.0 < 0x1000,
            Instruction::I00E0 => true,
            Instruction::I00EE => true,
            Instruction::I1NNN(nnn) => nnn.0 < 0x1000,
            Instruction::I2NNN(nnn) => nnn.0 < 0x1000,
            Instruction::I3XNN(x, _vv) => x.0 < 16,
            Instruction::I4XNN(x, _vv) => x.0 < 16,
            Instruction::I5XY0(x, y) => x.0 < 16 && y.0 < 16,
            Instruction::I6XNN(x, _vv) => x.0 < 16,
            Instruction::I7XNN(x, _vv) => x.0 < 16,
            Instruction::I8XY0(x, y) => x.0 < 16 && y.0 < 16,
            Instruction::I8XY1(x, y) => x.0 < 16 && y.0 < 16,
            Instruction::I8XY2(x, y) => x.0 < 16 && y.0 < 16,
            Instruction::I8XY3(x, y) => x.0 < 16 && y.0 < 16,
            Instruction::I8XY4(x, y) => x.0 < 16 && y.0 < 16,
            Instruction::I8XY5(x, y) => x.0 < 16 && y.0 < 16,
            Instruction::I8XY6(x, y) => x.0 < 16 && y.0 < 16,
            Instruction::I8XY7(x, y) => x.0 < 16 && y.0 < 16,
            Instruction::I8XYE(x, y) => x.0 < 16 && y.0 < 16,
            Instruction::I9XY0(x, y) => x.0 < 16 && y.0 < 16,
            Instruction::IANNN(nnn) => nnn.0 < 0x1000,
            Instruction::IBNNN(nnn) => nnn.0 < 0x1000,
            Instruction::ICXNN(x, _vv) => x.0 < 16,
            Instruction::IDXYN(x, y, v) => x.0 < 16 && y.0 < 16 && v.0 < 16,
            Instruction::IEX9E(x) => x.0 < 16,
            Instruction::IEXA1(x) => x.0 < 16,
            Instruction::IFX07(x) => x.0 < 16,
            Instruction::IFX0A(x) => x.0 < 16,
            Instruction::IFX15(x) => x.0 < 16,
            Instruction::IFX18(x) => x.0 < 16,
            Instruction::IFX1E(x) => x.0 < 16,
            Instruction::IFX29(x) => x.0 < 16,
            Instruction::IFX33(x) => x.0 < 16,
            Instruction::IFX55(rr) => rr.0 < 16,
            Instruction::IFX65(rr) => rr.0 < 16,
        }
    }

    fn decode_0(nnn: Address) -> (r: Result<Self, ()>)
        ensures
            r == spec_decode_0(nnn),
    {
        if nnn.0 == 0x00E0 {
            Ok(Instruction::I00E0)
        } else if nnn.0 == 0x00EE {
            Ok(Instruction::I00EE)
        } else if 0x0200 <= nnn.0 && nnn.0 <= 0x0FFF {
            Ok(Instruction::I0NNN(nnn))
        } else {
            Err(())
        }
    }

    fn decode_5(x: Register, y: Register, v: Value4) -> (r: Result<Self, ()>)
        ensures
            r == spec_decode_5(x, y, v),
    {
        if v.0 == 0x0 {
            Ok(Instruction::I5XY0(x, y))
        } else {
            Err(())
        }
    }

    fn decode_8(x: Register, y: Register, v: Value4) -> (r: Result<Self, ()>)
        ensures
            r == spec_decode_8(x, y, v),
    {
        match v.0 {
            0x0 => Ok(Instruction::I8XY0(x, y)),
            0x1 => Ok(Instruction::I8XY1(x, y)),
            0x2 => Ok(Instruction::I8XY2(x, y)),
            0x3 => Ok(Instruction::I8XY3(x, y)),
            0x4 => Ok(Instruction::I8XY4(x, y)),
            0x5 => Ok(Instruction::I8XY5(x, y)),
            0x6 => Ok(Instruction::I8XY6(x, y)),
            0x7 => Ok(Instruction::I8XY7(x, y)),
            0xE => Ok(Instruction::I8XYE(x, y)),
            _ => Err(()),
        }
    }

    fn decode_9(x: Register, y: Register, v: Value4) -> (r: Result<Self, ()>)
        ensures
            r == spec_decode_9(x, y, v),
    {
        if v.0 == 0x0 {
            Ok(Instruction::I9XY0(x, y))
        } else {
            Err(())
        }
    }

    fn decode_e(x: Register, vv: Value8) -> (r: Result<Self, ()>)
        ensures
            r == spec_decode_e(x, vv),
    {
        match vv.0 {
            0x9E => Ok(Instruction::IEX9E(x)),
            0xA1 => Ok(Instruction::IEXA1(x)),
            _ => Err(()),
        }
    }

    fn decode_f(x: Register, vv: Value8) -> (r: Result<Self, ()>)
        ensures
            r == spec_decode_f(x, vv),
    {
        match vv.0 {
            0x07 => Ok(Instruction::IFX07(x)),
            0x0A => Ok(Instruction::IFX0A(x)),
            0x15 => Ok(Instruction::IFX15(x)),
            0x18 => Ok(Instruction::IFX18(x)),
            0x1E => Ok(Instruction::IFX1E(x)),
            0x29 => Ok(Instruction::IFX29(x)),
            0x33 => Ok(Instruction::IFX33(x)),
            0x55 => Ok(Instruction::IFX55(RegisterRange(x.0))),
            0x65 => Ok(Instruction::IFX65(RegisterRange(x.0))),
            _ => Err(()),
        }
    }

    /// Decode a 2-byte big-endian opcode slice into a typed instruction.
    ///
    /// Fails with [`Error::InvalidAlignment`] when fewer than 2 bytes are
    /// available, and with [`Error::InvalidInstruction`] when the opcode
    /// matches no entry of the instruction table.
    pub fn try_from(instruction: &[u8]) -> (r: Result<Self, Error>)
        ensures
            instruction@.len() < 2 ==> r == Err::<Self, Error>(Error::InvalidAlignment),
            instruction@.len() >= 2 ==> {
                let ins = spec_opcode(instruction@[0], instruction@[1]);
                match spec_decode(ins) {
                    Some(i) => r == Ok::<Self, Error>(i),
                    None => r == Err::<Self, Error>(Error::InvalidInstruction(ins)),
                }
            },
            r matches Ok(i) ==> i.operands_ok(),
    {
        if instruction.len() < 2 {
            return Err(Error::InvalidAlignment);
        }
        let ins: u16 = ((instruction[0] as u16) << 8) | (instruction[1] as u16);
        let (n, a, b, c) = nibbles(ins);
        proof {
            lemma_nibble_mask_bound(a);
            lemma_nibble_mask_bound(b);
            lemma_nibble_mask_bound(c);
            lemma_address_from_nibbles_bound(a, b, c);
        }
        let decoded: Result<Self, ()> = match n {
            0x0 => Self::decode_0(Address::from((a, b, c))),
            0x1 => Ok(Instruction::I1NNN(Address::from((a, b, c)))),
            0x2 => Ok(Instruction::I2NNN(Address::from((a, b, c)))),
            0x3 => Ok(Instruction::I3XNN(Register::from(a), Value8::from((b, c)))),
            0x4 => Ok(Instruction::I4XNN(Register::from(a), Value8::from((b, c)))),
            0x5 => Self::decode_5(Register::from(a), Register::from(b), Value4::from(c)),
            0x6 => Ok(Instruction::I6XNN(Register::from(a), Value8::from((b, c)))),
            0x7 => Ok(Instruction::I7XNN(Register::from(a), Value8::from((b, c)))),
            0x8 => Self::decode_8(Register::from(a), Register::from(b), Value4::from(c)),
            0x9 => Self::decode_9(Register::from(a), Register::from(b), Value4::from(c)),
            0xA => Ok(Instruction::IANNN(Address::from((a, b, c)))),
            0xB => Ok(Instruction::IBNNN(Address::from((a, b, c)))),
            0xC => Ok(Instruction::ICXNN(Register::from(a), Value8::from((b, c)))),
            0xD => Ok(Instruction::IDXYN(Register::from(a), Register::from(b), Value4::from(c))),
            0xE => Self::decode_e(Register::from(a), Value8::from((b, c))),
            0xF => Self::decode_f(Register::from(a), Value8::from((b, c))),
            _ => Err(()),
        };
        match decoded {
            Ok(i) => Ok(i),
            Err(_) => Err(Error::InvalidInstruction(ins)),
        }
    }
}

/// The hexadecimal digit character for the low nibble of `n`.
pub open spec fn spec_hex_char(n: u8) -> char {
    let m = n & 0x0F;
    if m == 0 {
        '0'
    } else if m == 1 {
        '1'
    } else if m == 2 {
        '2'
    } else if m == 3 {
        '3'
    } else if m == 4 {
        '4'
    } else if m == 5 {
        '5'
    } else if m == 6 {
        '6'
    } else if m == 7 {
        '7'
    } else if m == 8 {
        '8'
    } else if m == 9 {
        '9'
    } else if m == 10 {
        'A'
    } else if m == 11 {
        'B'
    } else if m == 12 {
        'C'
    } else if m == 13 {
        'D'
    } else if m == 14 {
        'E'
    } else {
        'F'
    }
}

/// The characters naming a register: `V` and one hex digit.
pub open spec fn spec_reg_chars(x: Register) -> Seq<char> {
    seq!['V', spec_hex_char(x.0)]
}

/// The characters naming a register range bound, written like a register.
pub open spec fn spec_range_chars(rr: RegisterRange) -> Seq<char> {
    seq!['V', spec_hex_char(rr.0)]
}

/// The three hex digits of a 12-bit address.
pub open spec fn spec_addr_chars(nnn: Address) -> Seq<char> {
    seq![
        spec_hex_char((nnn.0 >> 8) as u8),
        spec_hex_char((nnn.0 >> 4) as u8),
        spec_hex_char(nnn.0 as u8),
    ]
}

/// The two hex digits of an 8-bit immediate.
pub open spec fn spec_val8_chars(vv: Value8) -> Seq<char> {
    seq![spec_hex_char(vv.0 >> 4), spec_hex_char(vv.0)]
}

/// The single hex digit of a 4-bit immediate.
pub open spec fn spec_val4_chars(v: Value4) -> Seq<char> {
    seq![spec_hex_char(v.0)]
}

/// The low nibble of `n` as a one-character hexadecimal string.
fn hex_str(n: u8) -> (r: &'static str)
    ensures
        r@ == seq![spec_hex_char(n)],
{
    let m = n & 0x0F;
    match m {
        0 => {
            proof {
                reveal_strlit("0");
                assert("0"@ =~= seq![spec_hex_char(n)]);
            }
            "0"
        },
        1 => {
            proof {
                reveal_strlit("1");
                assert("1"@ =~= seq![spec_hex_char(n)]);
            }
            "1"
        },
        2 => {
            proof {
                reveal_strlit("2");
                assert("2"@ =~= seq![spec_hex_char(n)]);
            }
            "2"
        },
        3 => {
            proof {
                reveal_strlit("3");
                assert("3"@ =~= seq![spec_hex_char(n)]);
            }
            "3"
        },
        4 => {
            proof {
                reveal_strlit("4");
                assert("4"@ =~= seq![spec_hex_char(n)]);
            }
            "4"
        },
        5 => {
            proof {
                reveal_strlit("5");
                assert("5"@ =~= seq![spec_hex_char(n)]);
            }
            "5"
        },
        6 => {
            proof {
                reveal_strlit("6");
                assert("6"@ =~= seq![spec_hex_char(n)]);
            }
            "6"
        },
        7 => {
            proof {
                reveal_strlit("7");
                assert("7"@ =~= seq![spec_hex_char(n)]);
            }
            "7"
        },
        8 => {
            proof {
                reveal_strlit("8");
                assert("8"@ =~= seq![spec_hex_char(n)]);
            }
            "8"
        },
        9 => {
            proof {
                reveal_strlit("9");
                assert("9"@ =~= seq![spec_hex_char(n)]);
            }
            "9"
        },
        10 => {
            proof {
                reveal_strlit("A");
                assert("A"@ =~= seq![spec_hex_char(n)]);
            }
            "A"
        },
        11 => {
            proof {
                reveal_strlit("B");
                assert("B"@ =~= seq![spec_hex_char(n)]);
            }
            "B"
        },
        12 => {
            proof {
                reveal_strlit("C");
                assert("C"@ =~= seq![spec_hex_char(n)]);
            }
            "C"
        },
        13 => {
            proof {
                reveal_strlit("D");
                assert("D"@ =~= seq![spec_hex_char(n)]);
            }
            "D"
        },
        14 => {
            proof {
                reveal_strlit("E");
                assert("E"@ =~= seq![spec_hex_char(n)]);
            }
            "E"
        },
        _ => {
            proof {
                reveal_strlit("F");
                assert("F"@ =~= seq![spec_hex_char(n)]);
            }
            "F"
        },
    }
}

/// Append a register name.
fn push_reg(s: &mut String, x: Register)
    ensures
        final(s)@ == old(s)@ + spec_reg_chars(x),
{
    proof {
        reveal_strlit("V");
    }
    s.append("V");
    s.append(hex_str(x.0));
    proof {
        assert(s@ =~= old(s)@ + spec_reg_chars(x));
    }
}

/// Append a register range bound.
fn push_range(s: &mut String, rr: RegisterRange)
    ensures
        final(s)@ == old(s)@ + spec_range_chars(rr),
{
    proof {
        reveal_strlit("V");
    }
    s.append("V");
    s.append(hex_str(rr.0));
    proof {
        assert(s@ =~= old(s)@ + spec_range_chars(rr));
    }
}

/// Append the three hex digits of an address.
fn push_addr(s: &mut String, nnn: Address)
    ensures
        final(s)@ == old(s)@ + spec_addr_chars(nnn),
{
    s.append(hex_str((nnn.0 >> 8) as u8));
    s.append(hex_str((nnn.0 >> 4) as u8));
    s.append(hex_str(nnn.0 as u8));
    proof {
        assert(s@ =~= old(s)@ + spec_addr_chars(nnn));
    }
}

/// Append the two hex digits of an 8-bit immediate.
fn push_val8(s: &mut String, vv: Value8)
    ensures
        final(s)@ == old(s)@ + spec_val8_chars(vv),
{
    s.append(hex_str(vv.0 >> 4));
    s.append(hex_str(vv.0));
    proof {
        assert(s@ =~= old(s)@ + spec_val8_chars(vv));
    }
}

/// Append the single hex digit of a 4-bit immediate.
fn push_val4(s: &mut String, v: Value4)
    ensures
        final(s)@ == old(s)@ + spec_val4_chars(v),
{
    s.append(hex_str(v.0));
    proof {
        assert(s@ =~= old(s)@ + spec_val4_chars(v));
    }
}

/// The assembly mnemonic of an instruction, as the disassembler prints
/// it.
pub open spec fn spec_mnemonic(ins: Instruction) -> Seq<char> {
    match ins {
        Instruction::I0NNN(nnn) => "SYS "@ + spec_addr_chars(nnn),
        Instruction::I00E0 => "CLS"@,
        Instruction::I00EE => "RET"@,
        Instruction::I1NNN(nnn) => "JP "@ + spec_addr_chars(nnn),
        Instruction::I2NNN(nnn) => "CALL "@ + spec_addr_chars(nnn),
        Instruction::I3XNN(x, vv) => "SE "@ + spec_reg_chars(x) + ", "@ + spec_val8_chars(vv),
        Instruction::I4XNN(x, vv) => "SNE "@ + spec_reg_chars(x) + ", "@ + spec_val8_chars(vv),
        Instruction::I5XY0(x, y) => "SE "@ + spec_reg_chars(x) + ", "@ + spec_reg_chars(y),
        Instruction::I6XNN(x, vv) => "LD "@ + spec_reg_chars(x) + ", "@ + spec_val8_chars(vv),
        Instruction::I7XNN(x, vv) => "ADD "@ + spec_reg_chars(x) + ", "@ + spec_val8_chars(vv),
        Instruction::I8XY0(x, y) => "LD "@ + spec_reg_chars(x) + ", "@ + spec_reg_chars(y),
        Instruction::I8XY1(x, y) => "OR "@ + spec_reg_chars(x) + ", "@ + spec_reg_chars(y),
        Instruction::I8XY2(x, y) => "AND "@ + spec_reg_chars(x) + ", "@ + spec_reg_chars(y),
        Instruction::I8XY3(x, y) => "XOR "@ + spec_reg_chars(x) + ", "@ + spec_reg_chars(y),
        Instruction::I8XY4(x, y) => "ADD "@ + spec_reg_chars(x) + ", "@ + spec_reg_chars(y),
        Instruction::I8XY5(x, y) => "SUB "@ + spec_reg_chars(x) + ", "@ + spec_reg_chars(y),
        Instruction::I8XY6(x, y) => "SHR "@ + spec_reg_chars(x) + " {,"@ + spec_reg_chars(y)
            + "}"@,
        Instruction::I8XY7(x, y) => "SUBN "@ + spec_reg_chars(x) + ", "@ + spec_reg_chars(y),
        Instruction::I8XYE(x, y) => "SHL "@ + spec_reg_chars(x) + " {,"@ + spec_reg_chars(y)
            + "}"@,
        Instruction::I9XY0(x, y) => "SNE "@ + spec_reg_chars(x) + ", "@ + spec_reg_chars(y),
        Instruction::IANNN(nnn) => "LD I, "@ + spec_addr_chars(nnn),
        Instruction::IBNNN(nnn) => "JP V0, "@ + spec_addr_chars(nnn),
        Instruction::ICXNN(x, vv) => "RND "@ + spec_reg_chars(x) + ", "@ + spec_val8_chars(vv),
        Instruction::IDXYN(x, y, v) => "DRW "@ + spec_reg_chars(x) + ", "@ + spec_reg_chars(y)
            + ", "@ + spec_val4_chars(v),
        Instruction::IEX9E(x) => "SKP "@ + spec_reg_chars(x),
        Instruction::IEXA1(x) => "SKNP "@ + spec_reg_chars(x),
        Instruction::IFX07(x) => "LD "@ + spec_reg_chars(x) + ", DT"@,
        Instruction::IFX0A(x) => "LD "@ + spec_reg_chars(x) + ", K"@,
        Instruction::IFX15(x) => "LD DT, "@ + spec_reg_chars(x),
        Instruction::IFX18(x) => "LD ST, "@ + spec_reg_chars(x),
        Instruction::IFX1E(x) => "ADD I, "@ + spec_reg_chars(x),
        Instruction::IFX29(x) => "LD F, "@ + spec_reg_chars(x),
        Instruction::IFX33(x) => "LD B, "@ + spec_reg_chars(x),
        Instruction::IFX55(rr) => "LD [I], "@ + spec_range_chars(rr),
        Instruction::IFX65(rr) => "LD "@ + spec_range_chars(rr) + ", [I]"@,
    }
}

impl Instruction {
    /// The assembly mnemonic of this instruction, for a disassembler.
    pub fn mnemonic(&self) -> (r: String)
        ensures
            r@ == spec_mnemonic(*self),
    {
        let mut s = String::new();
        match self {
            Instruction::I0NNN(nnn) => {
                proof {
                    reveal_strlit("SYS ");
                }
                s.append("SYS ");
                push_addr(&mut s, *nnn);
            },
            Instruction::I00E0 => {
                proof {
                    reveal_strlit("CLS");
                }
                s.append("CLS");
            },
            Instruction::I00EE => {
                proof {
                    reveal_strlit("RET");
                }
                s.append("RET");
            },
            Instruction::I1NNN(nnn) => {
                proof {
                    reveal_strlit("JP ");
                }
                s.append("JP ");
                push_addr(&mut s, *nnn);
            },
            Instruction::I2NNN(nnn) => {
                proof {
                    reveal_strlit("CALL ");
                }
                s.append("CALL ");
                push_addr(&mut s, *nnn);
            },
            Instruction::I3XNN(x, vv) => {
                proof {
                    reveal_strlit("SE ");
                    reveal_strlit(", ");
                }
                s.append("SE ");
                push_reg(&mut s, *x);
                s.append(", ");
                push_val8(&mut s, *vv);
            },
            Instruction::I4XNN(x, vv) => {
                proof {
                    reveal_strlit("SNE ");
                    reveal_strlit(", ");
                }
                s.append("SNE ");
                push_reg(&mut s, *x);
                s.append(", ");
                push_val8(&mut s, *vv);
            },
            Instruction::I5XY0(x, y) => {
                proof {
                    reveal_strlit("SE ");
                    reveal_strlit(", ");
                }
                s.append("SE ");
                push_reg(&mut s, *x);
                s.append(", ");
                push_reg(&mut s, *y);
            },
            Instruction::I6XNN(x, vv) => {
                proof {
                    reveal_strlit("LD ");
                    reveal_strlit(", ");
                }
                s.append("LD ");
                push_reg(&mut s, *x);
                s.append(", ");
                push_val8(&mut s, *vv);
            },
            Instruction::I7XNN(x, vv) => {
                proof {
                    reveal_strlit("ADD ");
                    reveal_strlit(", ");
                }
                s.append("ADD ");
                push_reg(&mut s, *x);
                s.append(", ");
                push_val8(&mut s, *vv);
            },
            Instruction::I8XY0(x, y) => {
                proof {
                    reveal_strlit("LD ");
                    reveal_strlit(", ");
                }
                s.append("LD ");
                push_reg(&mut s, *x);
                s.append(", ");
                push_reg(&mut s, *y);
            },
            Instruction::I8XY1(x, y) => {
                proof {
                    reveal_strlit("OR ");
                    reveal_strlit(", ");
                }
                s.append("OR ");
                push_reg(&mut s, *x);
                s.append(", ");
                push_reg(&mut s, *y);
            },
            Instruction::I8XY2(x, y) => {
                proof {
                    reveal_strlit("AND ");
                    reveal_strlit(", ");
                }
                s.append("AND ");
                push_reg(&mut s, *x);
                s.append(", ");
                push_reg(&mut s, *y);
            },
            Instruction::I8XY3(x, y) => {
                proof {
                    reveal_strlit("XOR ");
                    reveal_strlit(", ");
                }
                s.append("XOR ");
                push_reg(&mut s, *x);
                s.append(", ");
                push_reg(&mut s, *y);
            },
            Instruction::I8XY4(x, y) => {
                proof {
                    reveal_strlit("ADD ");
                    reveal_strlit(", ");
                }
                s.append("ADD ");
                push_reg(&mut s, *x);
                s.append(", ");
                push_reg(&mut s, *y);
            },
            Instruction::I8XY5(x, y) => {
                proof {
                    reveal_strlit("SUB ");
                    reveal_strlit(", ");
                }
                s.append("SUB ");
                push_reg(&mut s, *x);
                s.append(", ");
                push_reg(&mut s, *y);
            },
            Instruction::I8XY6(x, y) => {
                proof {
                    reveal_strlit("SHR ");
                    reveal_strlit(" {,");
                    reveal_strlit("}");
                }
                s.append("SHR ");
                push_reg(&mut s, *x);
                s.append(" {,");
                push_reg(&mut s, *y);
                s.append("}");
            },
            Instruction::I8XY7(x, y) => {
                proof {
                    reveal_strlit("SUBN ");
                    reveal_strlit(", ");
                }
                s.append("SUBN ");
                push_reg(&mut s, *x);
                s.append(", ");
                push_reg(&mut s, *y);
            },
            Instruction::I8XYE(x, y) => {
                proof {
                    reveal_strlit("SHL ");
                    reveal_strlit(" {,");
                    reveal_strlit("}");
                }
                s.append("SHL ");
                push_reg(&mut s, *x);
                s.append(" {,");
                push_reg(&mut s, *y);
                s.append("}");
            },
            Instruction::I9XY0(x, y) => {
                proof {
                    reveal_strlit("SNE ");
                    reveal_strlit(", ");
                }
                s.append("SNE ");
                push_reg(&mut s, *x);
                s.append(", ");
                push_reg(&mut s, *y);
            },
            Instruction::IANNN(nnn) => {
                proof {
                    reveal_strlit("LD I, ");
                }
                s.append("LD I, ");
                push_addr(&mut s, *nnn);
            },
            Instruction::IBNNN(nnn) => {
                proof {
                    reveal_strlit("JP V0, ");
                }
                s.append("JP V0, ");
                push_addr(&mut s, *nnn);
            },
            Instruction::ICXNN(x, vv) => {
                proof {
                    reveal_strlit("RND ");
                    reveal_strlit(", ");
                }
                s.append("RND ");
                push_reg(&mut s, *x);
                s.append(", ");
                push_val8(&mut s, *vv);
            },
            Instruction::IDXYN(x, y, v) => {
                proof {
                    reveal_strlit("DRW ");
                    reveal_strlit(", ");
                }
                s.append("DRW ");
                push_reg(&mut s, *x);
                s.append(", ");
                push_reg(&mut s, *y);
                s.append(", ");
                push_val4(&mut s, *v);
            },
            Instruction::IEX9E(x) => {
                proof {
                    reveal_strlit("SKP ");
                }
                s.append("SKP ");
                push_reg(&mut s, *x);
            },
            Instruction::IEXA1(x) => {
                proof {
                    reveal_strlit("SKNP ");
                }
                s.append("SKNP ");
                push_reg(&mut s, *x);
            },
            Instruction::IFX07(x) => {
                proof {
                    reveal_strlit("LD ");
                    reveal_strlit(", DT");
                }
                s.append("LD ");
                push_reg(&mut s, *x);
                s.append(", DT");
            },
            Instruction::IFX0A(x) => {
                proof {
                    reveal_strlit("LD ");
                    reveal_strlit(", K");
                }
                s.append("LD ");
                push_reg(&mut s, *x);
                s.append(", K");
            },
            Instruction::IFX15(x) => {
                proof {
                    reveal_strlit("LD DT, ");
                }
                s.append("LD DT, ");
                push_reg(&mut s, *x);
            },
            Instruction::IFX18(x) => {
                proof {
                    reveal_strlit("LD ST, ");
                }
                s.append("LD ST, ");
                push_reg(&mut s, *x);
            },
            Instruction::IFX1E(x) => {
                proof {
                    reveal_strlit("ADD I, ");
                }
                s.append("ADD I, ");
                push_reg(&mut s, *x);
            },
            Instruction::IFX29(x) => {
                proof {
                    reveal_strlit("LD F, ");
                }
                s.append("LD F, ");
                push_reg(&mut s, *x);
            },
            Instruction::IFX33(x) => {
                proof {
                    reveal_strlit("LD B, ");
                }
                s.append("LD B, ");
                push_reg(&mut s, *x);
            },
            Instruction::IFX55(rr) => {
                proof {
                    reveal_strlit("LD [I], ");
                }
                s.append("LD [I], ");
                push_range(&mut s, *rr);
            },
            Instruction::IFX65(rr) => {
                proof {
                    reveal_strlit("LD ");
                    reveal_strlit(", [I]");
                }
                s.append("LD ");
                push_range(&mut s, *rr);
                s.append(", [I]");
            },
        }
        proof {
            assert(s@ =~= spec_mnemonic(*self));
        }
        s
    }
}

/// A nibble masked with `0x0F` is a valid register or 4-bit operand index.
pub proof fn lemma_nibble_mask_bound(v: u8)
    by (bit_vector)
    ensures
        v & 0x0F < 16,
{
}

/// Split an opcode into its top nibble and the three sliding bytes the
/// operand constructors mask down.
fn nibbles(val: u16) -> (r: (u8, u8, u8, u8))
    ensures
        r.0 == (val >> 12) as u8,
        r.1 == (val >> 8) as u8,
        r.2 == (val >> 4) as u8,
        r.3 == val as u8,
{
    ((val >> 12) as u8, (val >> 8) as u8, (val >> 4) as u8, val as u8)
}

} // verus!
