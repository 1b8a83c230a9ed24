//! The CHIP-8 execution core: machine state plus a single-step operation
//! that fetches, decodes and executes one instruction.

use crate::instructions::{spec_decode, spec_opcode, Instruction, Register};
use crate::peripherals::{
    spec_collision, spec_key_pressed, spec_lowest_edge, spec_toggled_pixels, FallingEdges,
    Graphics, Keys, Pos, Random, Sprite, Timer,
};
use crate::Error;
use vstd::prelude::*;

verus! {

/// The flag register index (`VF`).
pub const VF: usize = 15;

/// The number of bytes in one font glyph.
pub const FONT_LEN: u16 = 5;

/// The mathematical state of the machine: memory, register file, call
/// stack, index register, program counter and stack pointer.
pub struct CoreView {
    pub mem: Seq<u8>,
    pub reg: Seq<u8>,
    pub stack: Seq<u16>,
    pub i: u16,
    pub pc: u16,
    pub sp: nat,
}

/// The rows of the built-in font glyph for digit `d`.
pub open spec fn glyph(d: int) -> Seq<u8> {
    if d == 0 {
        seq![0xF0u8, 0x90u8, 0x90u8, 0x90u8, 0xF0u8]
    } else if d == 1 {
        seq![0x20u8, 0x60u8, 0x20u8, 0x20u8, 0x70u8]
    } else if d == 2 {
        seq![0xF0u8, 0x10u8, 0xF0u8, 0x80u8, 0xF0u8]
    } else if d == 3 {
        seq![0xF0u8, 0x10u8, 0xF0u8, 0x10u8, 0xF0u8]
    } else if d == 4 {
        seq![0x90u8, 0x90u8, 0xF0u8, 0x10u8, 0x10u8]
    } else if d == 5 {
        seq![0xF0u8, 0x80u8, 0xF0u8, 0x10u8, 0xF0u8]
    } else if d == 6 {
        seq![0xF0u8, 0x80u8, 0xF0u8, 0x90u8, 0xF0u8]
    } else if d == 7 {
        seq![0xF0u8, 0x10u8, 0x20u8, 0x40u8, 0x40u8]
    } else if d == 8 {
        seq![0xF0u8, 0x90u8, 0xF0u8, 0x90u8, 0xF0u8]
    } else if d == 9 {
        seq![0xF0u8, 0x90u8, 0xF0u8, 0x10u8, 0xF0u8]
    } else if d == 10 {
        seq![0xF0u8, 0x90u8, 0xF0u8, 0x90u8, 0x90u8]
    } else if d == 11 {
        seq![0xE0u8, 0x90u8, 0xE0u8, 0x90u8, 0xE0u8]
    } else if d == 12 {
        seq![0xF0u8, 0x80u8, 0x80u8, 0x80u8, 0xF0u8]
    } else if d == 13 {
        seq![0xE0u8, 0x90u8, 0x90u8, 0x90u8, 0xE0u8]
    } else if d == 14 {
        seq![0xF0u8, 0x80u8, 0xF0u8, 0x80u8, 0xF0u8]
    } else {
        seq![0xF0u8, 0x80u8, 0xF0u8, 0x80u8, 0x80u8]
    }
}

/// Byte `r` of the font glyph for digit `d`.
pub open spec fn font_byte(d: int, r: int) -> u8 {
    glyph(d)[r]
}

/// Pick row `r` out of one glyph's five bytes.
fn glyph_row(b0: u8, b1: u8, b2: u8, b3: u8, b4: u8, r: u8) -> (b: u8)
    requires
        r < 5,
    ensures
        b == seq![b0, b1, b2, b3, b4][r as int],
{
    match r {
        0 => b0,
        1 => b1,
        2 => b2,
        3 => b3,
        _ => b4,
    }
}

/// Byte `r` of the font glyph for digit `d`.
fn font_glyph_byte(d: u8, r: u8) -> (b: u8)
    requires
        d < 16,
        r < 5,
    ensures
        b == font_byte(d as int, r as int),
{
    match d {
        0 => glyph_row(0xF0, 0x90, 0x90, 0x90, 0xF0, r),
        1 => glyph_row(0x20, 0x60, 0x20, 0x20, 0x70, r),
        2 => glyph_row(0xF0, 0x10, 0xF0, 0x80, 0xF0, r),
        3 => glyph_row(0xF0, 0x10, 0xF0, 0x10, 0xF0, r),
        4 => glyph_row(0x90, 0x90, 0xF0, 0x10, 0x10, r),
        5 => glyph_row(0xF0, 0x80, 0xF0, 0x10, 0xF0, r),
        6 => glyph_row(0xF0, 0x80, 0xF0, 0x90, 0xF0, r),
        7 => glyph_row(0xF0, 0x10, 0x20, 0x40, 0x40, r),
        8 => glyph_row(0xF0, 0x90, 0xF0, 0x90, 0xF0, r),
        9 => glyph_row(0xF0, 0x90, 0xF0, 0x10, 0xF0, r),
        10 => glyph_row(0xF0, 0x90, 0xF0, 0x90, 0x90, r),
        11 => glyph_row(0xE0, 0x90, 0xE0, 0x90, 0xE0, r),
        12 => glyph_row(0xF0, 0x80, 0x80, 0x80, 0xF0, r),
        13 => glyph_row(0xE0, 0x90, 0x90, 0x90, 0xE0, r),
        14 => glyph_row(0xF0, 0x80, 0xF0, 0x80, 0xF0, r),
        _ => glyph_row(0xF0, 0x80, 0xF0, 0x80, 0x80, r),
    }
}

/// Decompose a byte into its decimal digits `(hundreds, tens, ones)`.
pub fn bcd(val: u8) -> (r: (u8, u8, u8))
    ensures
        r.0 == val / 100,
        r.1 == (val / 10) % 10,
        r.2 == val % 10,
        r.0 * 100 + r.1 * 10 + r.2 == val,
{
    let hundreds = val / 100;
    let rest = val - hundreds * 100;
    let tens = rest / 10;
    let ones = rest - tens * 10;
    (hundreds, tens, ones)
}

/// The execution core: it owns the three state buffers supplied at
/// construction and mutates them exclusively through [`Core::tick`].
#[derive(Debug)]
pub struct Core {
    mem: Vec<u8>,
    reg: Vec<u8>,
    stack: Vec<u16>,
    i: u16,
    pc: u16,
    sp: usize,
}

impl View for Core {
    type V = CoreView;

    closed spec fn view(&self) -> CoreView {
        CoreView {
            mem: self.mem@,
            reg: self.reg@,
            stack: self.stack@,
            i: self.i,
            pc: self.pc,
            sp: self.sp as nat,
        }
    }
}

impl Core {
    /// The machine's structural invariant: the buffers are large enough
    /// and the stack pointer stays within the stack.
    pub open spec fn wf(&self) -> bool {
        &&& self@.mem.len() >= 4096
        &&& self@.reg.len() >= 16
        &&& self@.stack.len() >= 16
        &&& self@.sp <= self@.stack.len()
    }

    /// Build a core over the given buffers: the font is written to memory
    /// bytes `0..80`, registers and stack are zeroed, and the program
    /// counter starts at `0x200`. Program bytes already loaded at `0x200`
    /// and beyond stay as supplied.
    pub fn new(mem: Vec<u8>, reg: Vec<u8>, stack: Vec<u16>) -> (r: Self)
        requires
            mem@.len() >= 4096,
            reg@.len() >= 16,
            stack@.len() >= 16,
        ensures
            r.wf(),
            r@.mem.len() == mem@.len(),
            forall|j: int| 0 <= j < 80 ==> r@.mem[j] == font_byte(j / 5, j % 5),
            forall|j: int| 80 <= j < mem@.len() ==> r@.mem[j] == mem@[j],
            r@.reg.len() == reg@.len(),
            forall|j: int| 0 <= j < reg@.len() ==> r@.reg[j] == 0,
            r@.stack.len() == stack@.len(),
            forall|j: int| 0 <= j < stack@.len() ==> r@.stack[j] == 0,
            r@.i == 0,
            r@.pc == 0x200,
            r@.sp == 0,
    {
        let mut mem = mem;
        let mut reg = reg;
        let mut stack = stack;
        let ghost reg_len = reg@.len();
        let ghost stack_len = stack@.len();

        Self::load_font(&mut mem);

        let mut j: usize = 0;
        while j < reg.len()
            invariant
                reg@.len() == reg_len,
                j <= reg_len,
                forall|jj: int| 0 <= jj < j ==> reg@[jj] == 0,
            decreases reg_len - j,
        {
            reg[j] = 0;
            j = j + 1;
        }

        let mut k: usize = 0;
        while k < stack.len()
            invariant
                stack@.len() == stack_len,
                k <= stack_len,
                forall|kk: int| 0 <= kk < k ==> stack@[kk] == 0,
            decreases stack_len - k,
        {
            stack[k] = 0;
            k = k + 1;
        }

        Self { mem, reg, stack, i: 0, pc: 0x200, sp: 0 }
    }

    /// Write the built-in hexadecimal font into memory bytes `0..80`.
    fn load_font(loc: &mut Vec<u8>)
        requires
            old(loc)@.len() >= 80,
        ensures
            final(loc)@.len() == old(loc)@.len(),
            forall|j: int| 0 <= j < 80 ==> final(loc)@[j] == font_byte(j / 5, j % 5),
            forall|j: int| 80 <= j < old(loc)@.len() ==> final(loc)@[j] == old(loc)@[j],
    {
        let mut j: usize = 0;
        while j < 80
            invariant
                j <= 80,
                loc@.len() == old(loc)@.len(),
                old(loc)@.len() >= 80,
                forall|jj: int| 0 <= jj < j ==> loc@[jj] == font_byte(jj / 5, jj % 5),
                forall|jj: int| 80 <= jj < loc@.len() ==> loc@[jj] == old(loc)@[jj],
            decreases 80 - j,
        {
            loc[j] = font_glyph_byte((j / 5) as u8, (j % 5) as u8);
            j = j + 1;
        }
    }

    /// Pop a return address; fails when the stack is empty.
    fn pop(&mut self) -> (r: Result<u16, Error>)
        requires
            old(self).wf(),
        ensures
            final(self).wf(),
            old(self)@.sp == 0 ==> r == Err::<u16, Error>(Error::StackOverflow) && *final(self)
                == *old(self),
            old(self)@.sp > 0 ==> r == Ok::<u16, Error>(
                old(self)@.stack[old(self)@.sp - 1],
            ) && final(self)@ == (CoreView { sp: (old(self)@.sp - 1) as nat, ..old(self)@ }),
    {
        if self.sp == 0 {
            return Err(Error::StackOverflow);
        }
        self.sp = self.sp - 1;
        Ok(self.stack[self.sp])
    }

    /// Push a return address; fails when the stack is exhausted.
    fn push(&mut self, val: u16) -> (r: Result<(), Error>)
        requires
            old(self).wf(),
        ensures
            final(self).wf(),
            old(self)@.sp == old(self)@.stack.len() ==> r == Err::<(), Error>(
                Error::StackOverflow,
            ) && *final(self) == *old(self),
            old(self)@.sp < old(self)@.stack.len() ==> r == Ok::<(), Error>(()) && final(self)@
                == (CoreView {
                stack: old(self)@.stack.update(old(self)@.sp as int, val),
                sp: old(self)@.sp + 1,
                ..old(self)@
            }),
    {
        if self.sp >= self.stack.len() {
            return Err(Error::StackOverflow);
        }
        self.stack[self.sp] = val;
        self.sp = self.sp + 1;
        Ok(())
    }

    /// The program counter.
    pub fn pc(&self) -> (r: u16)
        ensures
            r == self@.pc,
    {
        self.pc
    }

    /// The index register.
    pub fn index(&self) -> (r: u16)
        ensures
            r == self@.i,
    {
        self.i
    }

    /// The stack pointer.
    pub fn sp(&self) -> (r: usize)
        ensures
            r == self@.sp,
    {
        self.sp
    }

    /// General-purpose register `idx`.
    pub fn reg(&self, idx: u8) -> (r: u8)
        requires
            self.wf(),
            idx < 16,
        ensures
            r == self@.reg[idx as int],
    {
        self.reg[idx as usize]
    }

    /// The byte at memory address `addr`.
    pub fn mem_byte(&self, addr: usize) -> (r: u8)
        requires
            addr < self@.mem.len(),
        ensures
            r == self@.mem[addr as int],
    {
        self.mem[addr]
    }

    /// The size of the memory buffer.
    pub fn mem_len(&self) -> (r: usize)
        ensures
            r == self@.mem.len(),
    {
        self.mem.len()
    }
}

/// The program counter advanced past one 2-byte instruction, wrapping
/// modulo the 16-bit address space.
pub open spec fn adv(pc: u16) -> u16 {
    vstd::wrapping::u16_specs::wrapping_add(pc, 2)
}

/// The program counter advanced past two instructions: the following one
/// is skipped.
pub open spec fn skip(pc: u16) -> u16 {
    vstd::wrapping::u16_specs::wrapping_add(pc, 4)
}

/// The opcode fetched at the program counter, or `None` when fewer than
/// two bytes lie within memory.
pub open spec fn spec_fetch(s: CoreView) -> Option<u16> {
    if s.pc as int + 2 <= s.mem.len() {
        Some(spec_opcode(s.mem[s.pc as int], s.mem[s.pc as int + 1]))
    } else {
        None
    }
}

/// No peripheral changed during the step.
pub open spec fn env_same<G: Graphics, R: Random, TD: Timer, TS: Timer>(
    g0: G,
    g1: G,
    r0: R,
    r1: R,
    td0: TD,
    td1: TD,
    ts0: TS,
    ts1: TS,
) -> bool {
    g1 == g0 && r1 == r0 && td1 == td0 && ts1 == ts0
}

/// What executing the already decoded instruction `ins` (fetched as
/// opcode `op`) does to the machine state and the peripherals.
///
/// Each instruction has a data effect and a program-counter disposition;
/// both are captured here, per variant, exactly as the table in the
/// instruction set describes them.
pub open spec fn step_ins<G: Graphics, R: Random, TD: Timer, TS: Timer>(
    pre: CoreView,
    post: CoreView,
    ins: Instruction,
    op: u16,
    keys: Keys,
    edges: FallingEdges,
    g0: G,
    g1: G,
    r0: R,
    r1: R,
    td0: TD,
    td1: TD,
    ts0: TS,
    ts1: TS,
    result: Result<(), Error>,
) -> bool {
    match ins {
        // SYS addr: calling a machine code routine is not a legal program
        // instruction for a modern interpreter; the step fails.
        Instruction::I0NNN(_nnn) => {
            &&& result == Err::<(), Error>(Error::InvalidInstruction(op))
            &&& post == pre
            &&& env_same(g0, g1, r0, r1, td0, td1, ts0, ts1)
        },
        // CLS: clear the display and present it.
        Instruction::I00E0 => {
            &&& result == Ok::<(), Error>(())
            &&& post == (CoreView { pc: adv(pre.pc), ..pre })
            &&& g1.screen() == Seq::new(g0.screen().len(), |i: int| false)
            &&& r1 == r0 && td1 == td0 && ts1 == ts0
        },
        // RET: pop a return address and resume just past the call.
        Instruction::I00EE => {
            &&& env_same(g0, g1, r0, r1, td0, td1, ts0, ts1)
            &&& if pre.sp > 0 {
                &&& result == Ok::<(), Error>(())
                &&& post == (CoreView {
                    sp: (pre.sp - 1) as nat,
                    pc: adv(pre.stack[pre.sp - 1]),
                    ..pre
                })
            } else {
                &&& result == Err::<(), Error>(Error::StackOverflow)
                &&& post == pre
            }
        },
        // JP addr.
        Instruction::I1NNN(nnn) => {
            &&& result == Ok::<(), Error>(())
            &&& post == (CoreView { pc: nnn.0, ..pre })
            &&& env_same(g0, g1, r0, r1, td0, td1, ts0, ts1)
        },
        // CALL addr: push the current program counter, then jump.
        Instruction::I2NNN(nnn) => {
            &&& env_same(g0, g1, r0, r1, td0, td1, ts0, ts1)
            &&& if pre.sp < pre.stack.len() {
                &&& result == Ok::<(), Error>(())
                &&& post == (CoreView {
                    stack: pre.stack.update(pre.sp as int, pre.pc),
                    sp: (pre.sp + 1) as nat,
                    pc: nnn.0,
                    ..pre
                })
            } else {
                &&& result == Err::<(), Error>(Error::StackOverflow)
                &&& post == pre
            }
        },
        // SE Vx, byte: skip the next instruction on equality.
        Instruction::I3XNN(x, vv) => {
            &&& result == Ok::<(), Error>(())
            &&& post == (CoreView {
                pc: if pre.reg[x.0 as int] == vv.0 {
                    skip(pre.pc)
                } else {
                    adv(pre.pc)
                },
                ..pre
            })
            &&& env_same(g0, g1, r0, r1, td0, td1, ts0, ts1)
        },
        // SNE Vx, byte.
        Instruction::I4XNN(x, vv) => {
            &&& result == Ok::<(), Error>(())
            &&& post == (CoreView {
                pc: if pre.reg[x.0 as int] != vv.0 {
                    skip(pre.pc)
                } else {
                    adv(pre.pc)
                },
                ..pre
            })
            &&& env_same(g0, g1, r0, r1, td0, td1, ts0, ts1)
        },
        // SE Vx, Vy.
        Instruction::I5XY0(x, y) => {
            &&& result == Ok::<(), Error>(())
            &&& post == (CoreView {
                pc: if pre.reg[x.0 as int] == pre.reg[y.0 as int] {
                    skip(pre.pc)
                } else {
                    adv(pre.pc)
                },
                ..pre
            })
            &&& env_same(g0, g1, r0, r1, td0, td1, ts0, ts1)
        },
        // LD Vx, byte.
        Instruction::I6XNN(x, vv) => {
            &&& result == Ok::<(), Error>(())
            &&& post == (CoreView {
                reg: pre.reg.update(x.0 as int, vv.0),
                pc: adv(pre.pc),
                ..pre
            })
            &&& env_same(g0, g1, r0, r1, td0, td1, ts0, ts1)
        },
        // ADD Vx, byte: wrapping, the flag register is untouched.
        Instruction::I7XNN(x, vv) => {
            &&& result == Ok::<(), Error>(())
            &&& post == (CoreView {
                reg: pre.reg.update(
                    x.0 as int,
                    vstd::wrapping::u8_specs::wrapping_add(pre.reg[x.0 as int], vv.0),
                ),
                pc: adv(pre.pc),
                ..pre
            })
            &&& env_same(g0, g1, r0, r1, td0, td1, ts0, ts1)
        },
        // LD Vx, Vy.
        Instruction::I8XY0(x, y) => {
            &&& result == Ok::<(), Error>(())
            &&& post == (CoreView {
                reg: pre.reg.update(x.0 as int, pre.reg[y.0 as int]),
                pc: adv(pre.pc),
                ..pre
            })
            &&& env_same(g0, g1, r0, r1, td0, td1, ts0, ts1)
        },
        // OR Vx, Vy.
        Instruction::I8XY1(x, y) => {
            &&& result == Ok::<(), Error>(())
            &&& post == (CoreView {
                reg: pre.reg.update(x.0 as int, pre.reg[x.0 as int] | pre.reg[y.0 as int]),
                pc: adv(pre.pc),
                ..pre
            })
            &&& env_same(g0, g1, r0, r1, td0, td1, ts0, ts1)
        },
        // AND Vx, Vy.
        Instruction::I8XY2(x, y) => {
            &&& result == Ok::<(), Error>(())
            &&& post == (CoreView {
                reg: pre.reg.update(x.0 as int, pre.reg[x.0 as int] & pre.reg[y.0 as int]),
                pc: adv(pre.pc),
                ..pre
            })
            &&& env_same(g0, g1, r0, r1, td0, td1, ts0, ts1)
        },
        // XOR Vx, Vy.
        Instruction::I8XY3(x, y) => {
            &&& result == Ok::<(), Error>(())
            &&& post == (CoreView {
                reg: pre.reg.update(x.0 as int, pre.reg[x.0 as int] ^ pre.reg[y.0 as int]),
                pc: adv(pre.pc),
                ..pre
            })
            &&& env_same(g0, g1, r0, r1, td0, td1, ts0, ts1)
        },
        // ADD Vx, Vy: wrapping add, then VF records the carry.
        Instruction::I8XY4(x, y) => {
            &&& result == Ok::<(), Error>(())
            &&& post == (CoreView {
                reg: pre.reg.update(
                    x.0 as int,
                    vstd::wrapping::u8_specs::wrapping_add(
                        pre.reg[x.0 as int],
                        pre.reg[y.0 as int],
                    ),
                ).update(
                    15,
                    if pre.reg[x.0 as int] + pre.reg[y.0 as int] > 255 {
                        1u8
                    } else {
                        0u8
                    },
                ),
                pc: adv(pre.pc),
                ..pre
            })
            &&& env_same(g0, g1, r0, r1, td0, td1, ts0, ts1)
        },
        // SUB Vx, Vy: wrapping subtract, then VF = 1 iff no borrow.
        Instruction::I8XY5(x, y) => {
            &&& result == Ok::<(), Error>(())
            &&& post == (CoreView {
                reg: pre.reg.update(
                    x.0 as int,
                    vstd::wrapping::u8_specs::wrapping_sub(
                        pre.reg[x.0 as int],
                        pre.reg[y.0 as int],
                    ),
                ).update(
                    15,
                    if pre.reg[x.0 as int] < pre.reg[y.0 as int] {
                        0u8
                    } else {
                        1u8
                    },
                ),
                pc: adv(pre.pc),
                ..pre
            })
            &&& env_same(g0, g1, r0, r1, td0, td1, ts0, ts1)
        },
        // SHR Vx: VF takes the low bit first, then the register is halved.
        Instruction::I8XY6(x, _y) => {
            &&& result == Ok::<(), Error>(())
            &&& ({
                let withflag = pre.reg.update(15, pre.reg[x.0 as int] & 1);
                post == (CoreView {
                    reg: withflag.update(x.0 as int, withflag[x.0 as int] / 2),
                    pc: adv(pre.pc),
                    ..pre
                })
            })
            &&& env_same(g0, g1, r0, r1, td0, td1, ts0, ts1)
        },
        // SUBN Vx, Vy: Vx = Vy - Vx wrapping, then VF = 1 iff no borrow.
        Instruction::I8XY7(x, y) => {
            &&& result == Ok::<(), Error>(())
            &&& post == (CoreView {
                reg: pre.reg.update(
                    x.0 as int,
                    vstd::wrapping::u8_specs::wrapping_sub(
                        pre.reg[y.0 as int],
                        pre.reg[x.0 as int],
                    ),
                ).update(
                    15,
                    if pre.reg[y.0 as int] < pre.reg[x.0 as int] {
                        0u8
                    } else {
                        1u8
                    },
                ),
                pc: adv(pre.pc),
                ..pre
            })
            &&& env_same(g0, g1, r0, r1, td0, td1, ts0, ts1)
        },
        // SHL Vx: the register is doubled wrapping, then VF records the
        // carried-out bit.
        Instruction::I8XYE(x, _y) => {
            &&& result == Ok::<(), Error>(())
            &&& post == (CoreView {
                reg: pre.reg.update(
                    x.0 as int,
                    vstd::wrapping::u8_specs::wrapping_mul(pre.reg[x.0 as int], 2),
                ).update(
                    15,
                    if pre.reg[x.0 as int] >= 0x80 {
                        1u8
                    } else {
                        0u8
                    },
                ),
                pc: adv(pre.pc),
                ..pre
            })
            &&& env_same(g0, g1, r0, r1, td0, td1, ts0, ts1)
        },
        // SNE Vx, Vy.
        Instruction::I9XY0(x, y) => {
            &&& result == Ok::<(), Error>(())
            &&& post == (CoreView {
                pc: if pre.reg[x.0 as int] != pre.reg[y.0 as int] {
                    skip(pre.pc)
                } else {
                    adv(pre.pc)
                },
                ..pre
            })
            &&& env_same(g0, g1, r0, r1, td0, td1, ts0, ts1)
        },
        // LD I, addr.
        Instruction::IANNN(nnn) => {
            &&& result == Ok::<(), Error>(())
            &&& post == (CoreView { i: nnn.0, pc: adv(pre.pc), ..pre })
            &&& env_same(g0, g1, r0, r1, td0, td1, ts0, ts1)
        },
        // JP V0, addr.
        Instruction::IBNNN(nnn) => {
            &&& result == Ok::<(), Error>(())
            &&& post == (CoreView {
                pc: ((nnn.0 as int + pre.reg[0] as int) as u16),
                ..pre
            })
            &&& env_same(g0, g1, r0, r1, td0, td1, ts0, ts1)
        },
        // RND Vx, byte: one byte from the randomness source, masked.
        Instruction::ICXNN(x, vv) => {
            &&& result == Ok::<(), Error>(())
            &&& ({
                let (b, rn) = r0.spec_random();
                &&& post == (CoreView {
                    reg: pre.reg.update(x.0 as int, b & vv.0),
                    pc: adv(pre.pc),
                    ..pre
                })
                &&& r1 == rn
            })
            &&& g1 == g0 && td1 == td0 && ts1 == ts0
        },
        // DRW Vx, Vy, nibble: XOR-draw the sprite at memory `I..I+n`, VF
        // records the collision, and the sink is asked to refresh once.
        Instruction::IDXYN(x, y, v) => {
            if pre.i as int + v.0 as int <= pre.mem.len() {
                let sprite = pre.mem.subrange(pre.i as int, pre.i as int + v.0 as int);
                let posn = Pos(pre.reg[x.0 as int], pre.reg[y.0 as int]);
                let coll = spec_collision(g0.screen(), posn, sprite);
                &&& result == Ok::<(), Error>(())
                &&& g1.screen() == spec_toggled_pixels(g0.screen(), posn, sprite)
                &&& post == (CoreView {
                    reg: pre.reg.update(15, if coll { 1u8 } else { 0u8 }),
                    pc: adv(pre.pc),
                    ..pre
                })
                &&& r1 == r0 && td1 == td0 && ts1 == ts0
            } else {
                &&& result == Err::<(), Error>(Error::InvalidAlignment)
                &&& post == pre
                &&& env_same(g0, g1, r0, r1, td0, td1, ts0, ts1)
            }
        },
        // SKP Vx: skip when the key held in Vx is pressed.
        Instruction::IEX9E(x) => {
            &&& result == Ok::<(), Error>(())
            &&& post == (CoreView {
                pc: if spec_key_pressed(keys.0, pre.reg[x.0 as int]) {
                    skip(pre.pc)
                } else {
                    adv(pre.pc)
                },
                ..pre
            })
            &&& env_same(g0, g1, r0, r1, td0, td1, ts0, ts1)
        },
        // SKNP Vx.
        Instruction::IEXA1(x) => {
            &&& result == Ok::<(), Error>(())
            &&& post == (CoreView {
                pc: if !spec_key_pressed(keys.0, pre.reg[x.0 as int]) {
                    skip(pre.pc)
                } else {
                    adv(pre.pc)
                },
                ..pre
            })
            &&& env_same(g0, g1, r0, r1, td0, td1, ts0, ts1)
        },
        // LD Vx, DT.
        Instruction::IFX07(x) => {
            &&& result == Ok::<(), Error>(())
            &&& post == (CoreView {
                reg: pre.reg.update(x.0 as int, td0.value()),
                pc: adv(pre.pc),
                ..pre
            })
            &&& env_same(g0, g1, r0, r1, td0, td1, ts0, ts1)
        },
        // LD Vx, K: pop the lowest falling edge, or hold the program
        // counter so the same instruction is retried next step.
        Instruction::IFX0A(x) => {
            &&& result == Ok::<(), Error>(())
            &&& env_same(g0, g1, r0, r1, td0, td1, ts0, ts1)
            &&& if edges.0 == 0 {
                post == pre
            } else {
                post == (CoreView {
                    reg: pre.reg.update(x.0 as int, spec_lowest_edge(edges.0) as u8),
                    pc: adv(pre.pc),
                    ..pre
                })
            }
        },
        // LD DT, Vx.
        Instruction::IFX15(x) => {
            &&& result == Ok::<(), Error>(())
            &&& post == (CoreView { pc: adv(pre.pc), ..pre })
            &&& td1.value() == pre.reg[x.0 as int]
            &&& g1 == g0 && r1 == r0 && ts1 == ts0
        },
        // LD ST, Vx.
        Instruction::IFX18(x) => {
            &&& result == Ok::<(), Error>(())
            &&& post == (CoreView { pc: adv(pre.pc), ..pre })
            &&& ts1.value() == pre.reg[x.0 as int]
            &&& g1 == g0 && r1 == r0 && td1 == td0
        },
        // ADD I, Vx: wrapping 16-bit add.
        Instruction::IFX1E(x) => {
            &&& result == Ok::<(), Error>(())
            &&& post == (CoreView {
                i: vstd::wrapping::u16_specs::wrapping_add(pre.i, pre.reg[x.0 as int] as u16),
                pc: adv(pre.pc),
                ..pre
            })
            &&& env_same(g0, g1, r0, r1, td0, td1, ts0, ts1)
        },
        // LD F, Vx: point I at the font glyph for the digit in Vx.
        Instruction::IFX29(x) => {
            &&& result == Ok::<(), Error>(())
            &&& post == (CoreView {
                i: ((pre.reg[x.0 as int] as int * 5) as u16),
                pc: adv(pre.pc),
                ..pre
            })
            &&& env_same(g0, g1, r0, r1, td0, td1, ts0, ts1)
        },
        // LD B, Vx: store the decimal digits of Vx at I, I+1, I+2.
        Instruction::IFX33(x) => {
            &&& env_same(g0, g1, r0, r1, td0, td1, ts0, ts1)
            &&& if pre.i as int + 3 <= pre.mem.len() {
                &&& result == Ok::<(), Error>(())
                &&& post == (CoreView {
                    mem: pre.mem.update(pre.i as int, pre.reg[x.0 as int] / 100).update(
                        pre.i as int + 1,
                        (pre.reg[x.0 as int] / 10) % 10,
                    ).update(pre.i as int + 2, pre.reg[x.0 as int] % 10),
                    pc: adv(pre.pc),
                    ..pre
                })
            } else {
                &&& result == Err::<(), Error>(Error::InvalidAlignment)
                &&& post == pre
            }
        },
        // LD [I], Vx: copy registers 0..=x to memory starting at I.
        Instruction::IFX55(rr) => {
            &&& env_same(g0, g1, r0, r1, td0, td1, ts0, ts1)
            &&& if pre.i as int + rr.0 as int + 1 <= pre.mem.len() {
                &&& result == Ok::<(), Error>(())
                &&& post.mem.len() == pre.mem.len()
                &&& (forall|j: int|
                    pre.i as int <= j <= pre.i as int + rr.0 as int ==> post.mem[j] == pre.reg[j
                        - pre.i as int])
                &&& (forall|j: int|
                    0 <= j < pre.mem.len() && !(pre.i as int <= j <= pre.i as int + rr.0 as int)
                        ==> post.mem[j] == pre.mem[j])
                &&& post.reg == pre.reg
                &&& post.stack == pre.stack
                &&& post.i == pre.i
                &&& post.sp == pre.sp
                &&& post.pc == adv(pre.pc)
            } else {
                &&& result == Err::<(), Error>(Error::InvalidAlignment)
                &&& post == pre
            }
        },
        // LD Vx, [I]: load registers 0..=x from memory starting at I.
        Instruction::IFX65(rr) => {
            &&& env_same(g0, g1, r0, r1, td0, td1, ts0, ts1)
            &&& if pre.i as int + rr.0 as int + 1 <= pre.mem.len() {
                &&& result == Ok::<(), Error>(())
                &&& post.reg.len() == pre.reg.len()
                &&& (forall|j: int|
                    0 <= j <= rr.0 as int ==> post.reg[j] == pre.mem[pre.i as int + j])
                &&& (forall|j: int|
                    (rr.0 as int) < j < pre.reg.len() ==> post.reg[j] == pre.reg[j])
                &&& post.mem == pre.mem
                &&& post.stack == pre.stack
                &&& post.i == pre.i
                &&& post.sp == pre.sp
                &&& post.pc == adv(pre.pc)
            } else {
                &&& result == Err::<(), Error>(Error::InvalidAlignment)
                &&& post == pre
            }
        },
    }
}

/// How the executed instruction disposes of the program counter, applied
/// once after its data effects.
enum PcMod {
    /// Stall: the same instruction is fetched again next step.
    Hold,
    /// Advance to the next 2-byte instruction.
    Normal,
    /// Skip the following instruction.
    Skip,
    /// Set the program counter to an absolute address.
    Jump(u16),
    /// Return from a call: resume just past the call site.
    Ret(u16),
}

impl Core {
    /// Copy registers `0..=upper` into memory starting at the index
    /// register.
    fn bulk_store(&mut self, upper: u8) -> (r: Result<(), Error>)
        requires
            old(self).wf(),
            upper < 16,
        ensures
            final(self).wf(),
            old(self)@.i as int + upper as int + 1 <= old(self)@.mem.len() ==> {
                &&& r == Ok::<(), Error>(())
                &&& final(self)@.mem.len() == old(self)@.mem.len()
                &&& (forall|j: int|
                    old(self)@.i as int <= j <= old(self)@.i as int + upper as int ==> final(self)@.mem[j] == old(self)@.reg[j - old(self)@.i as int])
                &&& (forall|j: int|
                    0 <= j < old(self)@.mem.len() && !(old(self)@.i as int <= j <= old(self)@.i
                        as int + upper as int) ==> final(self)@.mem[j] == old(self)@.mem[j])
                &&& final(self)@.reg == old(self)@.reg
                &&& final(self)@.stack == old(self)@.stack
                &&& final(self)@.i == old(self)@.i
                &&& final(self)@.pc == old(self)@.pc
                &&& final(self)@.sp == old(self)@.sp
            },
            old(self)@.i as int + upper as int + 1 > old(self)@.mem.len() ==> r == Err::<
                (),
                Error,
            >(Error::InvalidAlignment) && *final(self) == *old(self),
    {
        let ii = self.i as usize;
        let cnt = upper as usize + 1;
        if ii + cnt > self.mem.len() {
            return Err(Error::InvalidAlignment);
        }
        let mut k: usize = 0;
        while k < cnt
            invariant
                old(self).wf(),
                cnt == upper as int + 1,
                upper < 16,
                ii == old(self)@.i,
                ii + cnt <= self@.mem.len(),
                k <= cnt,
                self@.reg == old(self)@.reg,
                self@.stack == old(self)@.stack,
                self@.i == old(self)@.i,
                self@.pc == old(self)@.pc,
                self@.sp == old(self)@.sp,
                self@.mem.len() == old(self)@.mem.len(),
                forall|j: int| ii <= j < ii + k ==> self@.mem[j] == old(self)@.reg[j - ii],
                forall|j: int|
                    0 <= j < self@.mem.len() && !(ii <= j < ii + k) ==> self@.mem[j] == old(self)@.mem[j],
            decreases cnt - k,
        {
            self.mem[ii + k] = self.reg[k];
            k = k + 1;
        }
        Ok(())
    }

    /// Load registers `0..=upper` from memory starting at the index
    /// register.
    fn bulk_load(&mut self, upper: u8) -> (r: Result<(), Error>)
        requires
            old(self).wf(),
            upper < 16,
        ensures
            final(self).wf(),
            old(self)@.i as int + upper as int + 1 <= old(self)@.mem.len() ==> {
                &&& r == Ok::<(), Error>(())
                &&& final(self)@.reg.len() == old(self)@.reg.len()
                &&& (forall|j: int|
                    0 <= j <= upper as int ==> final(self)@.reg[j] == old(self)@.mem[old(self)@.i as int + j])
                &&& (forall|j: int|
                    (upper as int) < j < old(self)@.reg.len() ==> final(self)@.reg[j] == old(self)@.reg[j])
                &&& final(self)@.mem == old(self)@.mem
                &&& final(self)@.stack == old(self)@.stack
                &&& final(self)@.i == old(self)@.i
                &&& final(self)@.pc == old(self)@.pc
                &&& final(self)@.sp == old(self)@.sp
            },
            old(self)@.i as int + upper as int + 1 > old(self)@.mem.len() ==> r == Err::<
                (),
                Error,
            >(Error::InvalidAlignment) && *final(self) == *old(self),
    {
        let ii = self.i as usize;
        let cnt = upper as usize + 1;
        if ii + cnt > self.mem.len() {
            return Err(Error::InvalidAlignment);
        }
        let mut k: usize = 0;
        while k < cnt
            invariant
                old(self).wf(),
                cnt == upper as int + 1,
                upper < 16,
                ii == old(self)@.i,
                ii + cnt <= self@.mem.len(),
                k <= cnt,
                self@.mem == old(self)@.mem,
                self@.stack == old(self)@.stack,
                self@.i == old(self)@.i,
                self@.pc == old(self)@.pc,
                self@.sp == old(self)@.sp,
                self@.reg.len() == old(self)@.reg.len(),
                forall|j: int| 0 <= j < k ==> self@.reg[j] == old(self)@.mem[ii + j],
                forall|j: int| k <= j < self@.reg.len() ==> self@.reg[j] == old(self)@.reg[j],
            decreases cnt - k,
        {
            self.reg[k] = self.mem[ii + k];
            k = k + 1;
        }
        Ok(())
    }

    /// Execute a single fetch-decode-execute step against the supplied
    /// peripherals.
    ///
    /// `keys` is the current keypad snapshot and `edges` the set of keys
    /// released since the last sample; the step consumes at most one edge.
    /// Any error leaves the whole machine and every peripheral unchanged.
    pub fn tick<G: Graphics, R: Random, TD: Timer, TS: Timer>(
        &mut self,
        keys: Keys,
        edges: FallingEdges,
        graphics: &mut G,
        random: &mut R,
        timer_delay: &mut TD,
        timer_sound: &mut TS,
    ) -> (result: Result<(), Error>)
        requires
            old(self).wf(),
        ensures
            final(self).wf(),
            final(self)@.mem.len() == old(self)@.mem.len(),
            final(self)@.reg.len() == old(self)@.reg.len(),
            final(self)@.stack.len() == old(self)@.stack.len(),
            step_rel(
                old(self)@,
                final(self)@,
                keys,
                edges,
                *old(graphics),
                *final(graphics),
                *old(random),
                *final(random),
                *old(timer_delay),
                *final(timer_delay),
                *old(timer_sound),
                *final(timer_sound),
                result,
            ),
    {
        let pc0 = self.pc as usize;
        if pc0 + 2 > self.mem.len() {
            return Err(Error::InvalidAlignment);
        }
        let instruction = {
            let window = vstd::slice::slice_subrange(self.mem.as_slice(), pc0, pc0 + 2);
            match Instruction::try_from(window) {
                Ok(i) => i,
                Err(e) => {
                    return Err(e);
                },
            }
        };
        let mut pc_after = PcMod::Normal;
        match instruction {
            // SYS addr: not a legal program instruction for a modern
            // interpreter; fail without touching any state.
            Instruction::I0NNN(_nnn) => {
                let hi = self.mem[pc0];
                let lo = self.mem[pc0 + 1];
                return Err(Error::InvalidInstruction(((hi as u16) << 8) | (lo as u16)));
            },
            // CLS.
            Instruction::I00E0 => {
                graphics.clear();
                graphics.refresh();
            },
            // RET.
            Instruction::I00EE => {
                match self.pop() {
                    Ok(t) => {
                        pc_after = PcMod::Ret(t);
                    },
                    Err(e) => {
                        return Err(e);
                    },
                }
            },
            // JP addr.
            Instruction::I1NNN(nnn) => {
                pc_after = PcMod::Jump(nnn.0);
            },
            // CALL addr.
            Instruction::I2NNN(nnn) => {
                let cur = self.pc;
                match self.push(cur) {
                    Ok(()) => {
                        pc_after = PcMod::Jump(nnn.0);
                    },
                    Err(e) => {
                        return Err(e);
                    },
                }
            },
            // SE Vx, byte.
            Instruction::I3XNN(x, vv) => {
                if self.reg[x.0 as usize] == vv.0 {
                    pc_after = PcMod::Skip;
                }
            },
            // SNE Vx, byte.
            Instruction::I4XNN(x, vv) => {
                if self.reg[x.0 as usize] != vv.0 {
                    pc_after = PcMod::Skip;
                }
            },
            // SE Vx, Vy.
            Instruction::I5XY0(x, y) => {
                if self.reg[x.0 as usize] == self.reg[y.0 as usize] {
                    pc_after = PcMod::Skip;
                }
            },
            // LD Vx, byte.
            Instruction::I6XNN(x, vv) => {
                self.reg[x.0 as usize] = vv.0;
            },
            // ADD Vx, byte (no flag).
            Instruction::I7XNN(x, vv) => {
                let val = self.reg[x.0 as usize].wrapping_add(vv.0);
                self.reg[x.0 as usize] = val;
            },
            // LD Vx, Vy.
            Instruction::I8XY0(x, y) => {
                self.reg[x.0 as usize] = self.reg[y.0 as usize];
            },
            // OR Vx, Vy.
            Instruction::I8XY1(x, y) => {
                self.reg[x.0 as usize] = self.reg[x.0 as usize] | self.reg[y.0 as usize];
            },
            // AND Vx, Vy.
            Instruction::I8XY2(x, y) => {
                self.reg[x.0 as usize] = self.reg[x.0 as usize] & self.reg[y.0 as usize];
            },
            // XOR Vx, Vy.
            Instruction::I8XY3(x, y) => {
                self.reg[x.0 as usize] = self.reg[x.0 as usize] ^ self.reg[y.0 as usize];
            },
            // ADD Vx, Vy: set VF = carry.
            Instruction::I8XY4(x, y) => {
                let a = self.reg[x.0 as usize];
                let b = self.reg[y.0 as usize];
                self.reg[x.0 as usize] = a.wrapping_add(b);
                self.reg[VF] = if (a as u16) + (b as u16) > 255 {
                    1
                } else {
                    0
                };
            },
            // SUB Vx, Vy: set VF = NOT borrow.
            Instruction::I8XY5(x, y) => {
                let a = self.reg[x.0 as usize];
                let b = self.reg[y.0 as usize];
                self.reg[x.0 as usize] = a.wrapping_sub(b);
                self.reg[VF] = if a < b {
                    0
                } else {
                    1
                };
            },
            // SHR Vx: VF takes the low bit before the shift.
            Instruction::I8XY6(x, _y) => {
                self.reg[VF] = self.reg[x.0 as usize] & 0x01;
                let cur = self.reg[x.0 as usize];
                self.reg[x.0 as usize] = cur / 2;
            },
            // SUBN Vx, Vy: Vx = Vy - Vx, set VF = NOT borrow.
            Instruction::I8XY7(x, y) => {
                let a = self.reg[x.0 as usize];
                let b = self.reg[y.0 as usize];
                self.reg[x.0 as usize] = b.wrapping_sub(a);
                self.reg[VF] = if b < a {
                    0
                } else {
                    1
                };
            },
            // SHL Vx: VF records the carried-out bit.
            Instruction::I8XYE(x, _y) => {
                let a = self.reg[x.0 as usize];
                self.reg[x.0 as usize] = a.wrapping_mul(2);
                self.reg[VF] = if a >= 0x80 {
                    1
                } else {
                    0
                };
            },
            // SNE Vx, Vy.
            Instruction::I9XY0(x, y) => {
                if self.reg[x.0 as usize] != self.reg[y.0 as usize] {
                    pc_after = PcMod::Skip;
                }
            },
            // LD I, addr.
            Instruction::IANNN(nnn) => {
                self.i = nnn.0;
            },
            // JP V0, addr.
            Instruction::IBNNN(nnn) => {
                pc_after = PcMod::Jump(nnn.0 + (self.reg[0] as u16));
            },
            // RND Vx, byte.
            Instruction::ICXNN(x, vv) => {
                let byte = random.random();
                self.reg[x.0 as usize] = byte & vv.0;
            },
            // DRW Vx, Vy, nibble.
            Instruction::IDXYN(x, y, v) => {
                let start = self.i as usize;
                let length = v.0 as usize;
                if start + length > self.mem.len() {
                    return Err(Error::InvalidAlignment);
                }
                let reg0_value = self.reg[x.0 as usize];
                let reg1_value = self.reg[y.0 as usize];

                let posn = Pos(reg0_value, reg1_value);
                let collided = {
                    let rows = vstd::slice::slice_subrange(
                        self.mem.as_slice(),
                        start,
                        start + length,
                    );
                    graphics.toggle_sprite(posn, Sprite(rows))
                };

                self.reg[VF] = if collided {
                    1
                } else {
                    0
                };
                graphics.refresh();
            },
            // SKP Vx.
            Instruction::IEX9E(x) => {
                if keys.pressed(self.reg[x.0 as usize]) {
                    pc_after = PcMod::Skip;
                }
            },
            // SKNP Vx.
            Instruction::IEXA1(x) => {
                if !keys.pressed(self.reg[x.0 as usize]) {
                    pc_after = PcMod::Skip;
                }
            },
            // LD Vx, DT.
            Instruction::IFX07(x) => {
                self.reg[x.0 as usize] = timer_delay.get();
            },
            // LD Vx, K: pop the next falling edge or hold.
            Instruction::IFX0A(x) => {
                let mut pending = edges;
                match pending.pop_next_idx() {
                    Some(idx) => {
                        self.reg[x.0 as usize] = idx;
                    },
                    None => {
                        pc_after = PcMod::Hold;
                    },
                }
            },
            // LD DT, Vx.
            Instruction::IFX15(x) => {
                timer_delay.set(self.reg[x.0 as usize]);
            },
            // LD ST, Vx.
            Instruction::IFX18(x) => {
                timer_sound.set(self.reg[x.0 as usize]);
            },
            // ADD I, Vx.
            Instruction::IFX1E(x) => {
                let val = self.i.wrapping_add(self.reg[x.0 as usize] as u16);
                self.i = val;
            },
            // LD F, Vx.
            Instruction::IFX29(x) => {
                self.i = (self.reg[x.0 as usize] as u16) * FONT_LEN;
            },
            // LD B, Vx.
            Instruction::IFX33(x) => {
                let ii = self.i as usize;
                if ii + 3 > self.mem.len() {
                    return Err(Error::InvalidAlignment);
                }
                let (hundreds, tens, ones) = bcd(self.reg[x.0 as usize]);
                self.mem[ii] = hundreds;
                self.mem[ii + 1] = tens;
                self.mem[ii + 2] = ones;
            },
            // LD [I], Vx.
            Instruction::IFX55(rr) => {
                match self.bulk_store(rr.0) {
                    Ok(()) => {},
                    Err(e) => {
                        return Err(e);
                    },
                }
            },
            // LD Vx, [I].
            Instruction::IFX65(rr) => {
                match self.bulk_load(rr.0) {
                    Ok(()) => {},
                    Err(e) => {
                        return Err(e);
                    },
                }
            },
        }

        // Apply the program-counter disposition.
        match pc_after {
            PcMod::Hold => {},
            PcMod::Normal => {
                self.pc = self.pc.wrapping_add(2);
            },
            PcMod::Skip => {
                self.pc = self.pc.wrapping_add(4);
            },
            PcMod::Jump(target) => {
                self.pc = target;
            },
            PcMod::Ret(target) => {
                self.pc = target.wrapping_add(2);
            },
        }

        Ok(())
    }
}

/// One whole step: fetch at the program counter, decode, execute. A fetch
/// or decode failure leaves every part of the machine and its peripherals
/// unchanged.
pub open spec fn step_rel<G: Graphics, R: Random, TD: Timer, TS: Timer>(
    pre: CoreView,
    post: CoreView,
    keys: Keys,
    edges: FallingEdges,
    g0: G,
    g1: G,
    r0: R,
    r1: R,
    td0: TD,
    td1: TD,
    ts0: TS,
    ts1: TS,
    result: Result<(), Error>,
) -> bool {
    match spec_fetch(pre) {
        None => {
            &&& result == Err::<(), Error>(Error::InvalidAlignment)
            &&& post == pre
            &&& env_same(g0, g1, r0, r1, td0, td1, ts0, ts1)
        },
        Some(op) => match spec_decode(op) {
            None => {
                &&& result == Err::<(), Error>(Error::InvalidInstruction(op))
                &&& post == pre
                &&& env_same(g0, g1, r0, r1, td0, td1, ts0, ts1)
            },
            Some(ins) => step_ins(
                pre,
                post,
                ins,
                op,
                keys,
                edges,
                g0,
                g1,
                r0,
                r1,
                td0,
                td1,
                ts0,
                ts1,
                result,
            ),
        },
    }
}


/// Key-wait on an empty falling-edge set holds the program counter: the
/// step succeeds but the whole machine and its peripherals are unchanged,
/// so the same instruction is fetched again next step.
pub proof fn lemma_key_wait_holds<G: Graphics, R: Random, TD: Timer, TS: Timer>(
    pre: CoreView,
    post: CoreView,
    keys: Keys,
    edges: FallingEdges,
    g0: G,
    g1: G,
    r0: R,
    r1: R,
    td0: TD,
    td1: TD,
    ts0: TS,
    ts1: TS,
    result: Result<(), Error>,
    x: Register,
)
    requires
        step_rel(pre, post, keys, edges, g0, g1, r0, r1, td0, td1, ts0, ts1, result),
        (spec_fetch(pre) matches Some(op) && spec_decode(op) == Some(Instruction::IFX0A(x))),
        edges.0 == 0,
    ensures
        result == Ok::<(), Error>(()),
        post == pre,
        post.pc == pre.pc,
        env_same(g0, g1, r0, r1, td0, td1, ts0, ts1),
{
}

/// Skip-if-equal advances the program counter by two instructions when
/// the compared registers hold equal values, and by one when they
/// differ.
pub proof fn lemma_skip_if_equal<G: Graphics, R: Random, TD: Timer, TS: Timer>(
    pre: CoreView,
    post: CoreView,
    keys: Keys,
    edges: FallingEdges,
    g0: G,
    g1: G,
    r0: R,
    r1: R,
    td0: TD,
    td1: TD,
    ts0: TS,
    ts1: TS,
    result: Result<(), Error>,
    x: Register,
    y: Register,
)
    requires
        step_rel(pre, post, keys, edges, g0, g1, r0, r1, td0, td1, ts0, ts1, result),
        (spec_fetch(pre) matches Some(op) && spec_decode(op) == Some(Instruction::I5XY0(x, y))),
    ensures
        result == Ok::<(), Error>(()),
        pre.reg[x.0 as int] == pre.reg[y.0 as int] ==> post.pc == skip(pre.pc),
        pre.reg[x.0 as int] != pre.reg[y.0 as int] ==> post.pc == adv(pre.pc),
        pre.reg[x.0 as int] == pre.reg[y.0 as int] && pre.pc as int + 4 <= 0xFFFF ==> post.pc
            == pre.pc + 4,
        pre.reg[x.0 as int] != pre.reg[y.0 as int] && pre.pc as int + 2 <= 0xFFFF ==> post.pc
            == pre.pc + 2,
        post.mem == pre.mem && post.reg == pre.reg && post.stack == pre.stack,
{
}

} // verus!
