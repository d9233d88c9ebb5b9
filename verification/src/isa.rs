//! What each instruction does. An opcode is read by its fields: the two top
//! bits pick a quarter of the table, bits 3 to 5 and bits 0 to 2 pick a row
//! and a column in it. Each function takes the state in which the opcode has
//! been fetched and gives the state that the instruction leaves, with its
//! cost in machine cycles; the bus has not yet been advanced by that cost.

use vstd::prelude::*;
use crate::alu;
use crate::alu::{signed, wrap16};
use crate::cpu::CpuState;
use crate::memory::{lemma_write_read, MmuState};
use crate::register::{
    flag_in,
    flags_byte,
    high_byte,
    lemma_bytes_pair,
    lemma_flags_byte,
    lemma_pair_bytes,
    low_byte,
    pair,
    Flag,
    Reg,
};

verus! {

/// Bits 3 to 5 of an opcode.
pub open spec fn row(opcode: u8) -> u8 {
    (opcode / 8) % 8
}

/// Bits 0 to 2 of an opcode.
pub open spec fn column(opcode: u8) -> u8 {
    opcode % 8
}

/// Whether the byte is an instruction. Eleven bytes of the last quarter are
/// none.
pub open spec fn defined(opcode: u8) -> bool {
    opcode != 0xD3 && opcode != 0xDB && opcode != 0xDD && opcode != 0xE3 && opcode != 0xE4
        && opcode != 0xEB && opcode != 0xEC && opcode != 0xED && opcode != 0xF4 && opcode
        != 0xFC && opcode != 0xFD
}

/// The cost of an instruction that costs `base` on a register and `memory`
/// on the byte at HL.
pub open spec fn cost(operand: u8, base: u32, memory: u32) -> u32 {
    if operand == 6 {
        memory
    } else {
        base
    }
}

impl CpuState {
    /// The 8-bit operand `i`: B, C, D, E, H, L, the byte at HL, A.
    pub open spec fn r8(self, i: u8) -> u8 {
        match i {
            0 => self.reg.b,
            1 => self.reg.c,
            2 => self.reg.d,
            3 => self.reg.e,
            4 => self.reg.h,
            5 => self.reg.l,
            6 => self.bus.read(self.hl()),
            _ => self.reg.a,
        }
    }

    /// The state with `v` stored in the 8-bit operand `i`.
    pub open spec fn with_r8(self, i: u8, v: u8) -> CpuState {
        match i {
            0 => self.with_reg(Reg { b: v, ..self.reg }),
            1 => self.with_reg(Reg { c: v, ..self.reg }),
            2 => self.with_reg(Reg { d: v, ..self.reg }),
            3 => self.with_reg(Reg { e: v, ..self.reg }),
            4 => self.with_reg(Reg { h: v, ..self.reg }),
            5 => self.with_reg(Reg { l: v, ..self.reg }),
            6 => self.write(self.hl(), v),
            _ => self.with_reg(Reg { a: v, ..self.reg }),
        }
    }

    /// The 16-bit operand `i`: BC, DE, HL, SP.
    pub open spec fn r16(self, i: u8) -> u16 {
        match i {
            0 => pair(self.reg.b, self.reg.c),
            1 => pair(self.reg.d, self.reg.e),
            2 => pair(self.reg.h, self.reg.l),
            _ => self.reg.sp,
        }
    }

    /// The state with `v` stored in the 16-bit operand `i`.
    pub open spec fn with_r16(self, i: u8, v: u16) -> CpuState {
        match i {
            0 => self.with_reg(Reg { b: high_byte(v), c: low_byte(v), ..self.reg }),
            1 => self.with_reg(Reg { d: high_byte(v), e: low_byte(v), ..self.reg }),
            2 => self.with_reg(Reg { h: high_byte(v), l: low_byte(v), ..self.reg }),
            _ => self.with_sp(v),
        }
    }

    /// The pair `i` that PUSH and POP name: BC, DE, HL, AF.
    pub open spec fn r16_stack(self, i: u8) -> u16 {
        if i == 3 {
            pair(self.reg.a, self.reg.f)
        } else {
            self.r16(i)
        }
    }

    /// The state with `v` stored in the pair `i` that PUSH and POP name; of
    /// F only the high nibble is stored.
    pub open spec fn with_r16_stack(self, i: u8, v: u16) -> CpuState {
        if i == 3 {
            self.with_reg(Reg { a: high_byte(v), f: low_byte(v) & 0xF0, ..self.reg })
        } else {
            self.with_r16(i, v)
        }
    }

    /// The condition `i`: NZ, Z, NC, C.
    pub open spec fn cond(self, i: u8) -> bool {
        match i {
            0 => !flag_in(self.reg.f, Flag::Z),
            1 => flag_in(self.reg.f, Flag::Z),
            2 => !flag_in(self.reg.f, Flag::C),
            _ => flag_in(self.reg.f, Flag::C),
        }
    }

    /// The state after a jump by the signed displacement `e`.
    pub open spec fn jump_rel(self, e: u8) -> CpuState {
        self.with_pc(wrap16(self.reg.pc + signed(e)))
    }

    /// The state after a call of `target`: the program counter is pushed.
    pub open spec fn call(self, target: u16) -> CpuState {
        self.push(self.reg.pc).with_pc(target)
    }

    /// The state after a return: the program counter is popped.
    pub open spec fn ret(self) -> CpuState {
        self.pop().1.with_pc(self.pop().0)
    }

    /// What the operation `op` of the third quarter leaves in A and F with
    /// the operand `b`: ADD, ADC, SUB, SBC, AND, XOR, OR, CP.
    pub open spec fn alu_a(self, op: u8, b: u8) -> CpuState {
        let a = self.reg.a;
        self.with_af(
            match op {
                0 => alu::add8(a, b, false),
                1 => alu::add8(a, b, self.carry()),
                2 => alu::sub8(a, b, false),
                3 => alu::sub8(a, b, self.carry()),
                4 => alu::and8(a, b),
                5 => alu::xor8(a, b),
                6 => alu::or8(a, b),
                _ => alu::cp8(a, b),
            },
        )
    }

    /// What the rotate or shift `kind` of the CB table gives for `x`: RLC,
    /// RRC, RL, RR, SLA, SRA, SWAP, SRL.
    pub open spec fn rotate(self, kind: u8, x: u8) -> (u8, u8) {
        match kind {
            0 => alu::rlc8(x),
            1 => alu::rrc8(x),
            2 => alu::rl8(x, self.carry()),
            3 => alu::rr8(x, self.carry()),
            4 => alu::sla8(x),
            5 => alu::sra8(x),
            6 => alu::swap8(x),
            _ => alu::srl8(x),
        }
    }

    /// Column 0 of the first quarter: NOP, LD (nn),SP, STOP, JR e, JR cc,e.
    /// STOP does nothing. A conditional jump reads its displacement whether
    /// it is taken or not.
    pub open spec fn control(self, y: u8) -> (CpuState, u32) {
        if y == 0 || y == 2 {
            (self, 1)
        } else if y == 1 {
            let (nn, s) = self.fetch16();
            (s.write(nn, low_byte(s.reg.sp)).write(wrap16(nn + 1), high_byte(s.reg.sp)), 5)
        } else {
            let (e, s) = self.fetch8();
            if y == 3 || self.cond((y - 4) as u8) {
                (s.jump_rel(e), 3)
            } else {
                (s, 2)
            }
        }
    }

    /// Column 1 of the first quarter: LD rr,nn and ADD HL,rr.
    pub open spec fn load16(self, y: u8) -> (CpuState, u32) {
        if y % 2 == 0 {
            let (nn, s) = self.fetch16();
            (s.with_r16(y / 2, nn), 3)
        } else {
            (self.with_hl_f(alu::add16(self.hl(), self.r16(y / 2), self.reg.f)), 2)
        }
    }

    /// Column 2 of the first quarter: A to or from the byte at BC, at DE, at
    /// HL with HL then one up, or at HL with HL then one down.
    pub open spec fn indirect(self, y: u8) -> (CpuState, u32) {
        let p = y / 2;
        let addr = if p == 0 {
            self.r16(0)
        } else if p == 1 {
            self.r16(1)
        } else {
            self.hl()
        };
        let moved = if y % 2 == 0 {
            self.write(addr, self.reg.a)
        } else {
            self.with_a(self.bus.read(addr))
        };
        let next = if p == 2 {
            moved.with_r16(2, wrap16(addr + 1))
        } else if p == 3 {
            moved.with_r16(2, wrap16(addr - 1))
        } else {
            moved
        };
        (next, 2)
    }

    /// Column 3 of the first quarter: INC rr and DEC rr.
    pub open spec fn step16(self, y: u8) -> (CpuState, u32) {
        let v = self.r16(y / 2);
        (
            self.with_r16(
                y / 2,
                if y % 2 == 0 {
                    wrap16(v + 1)
                } else {
                    wrap16(v - 1)
                },
            ),
            2,
        )
    }

    /// Columns 4 and 5 of the first quarter: INC r and DEC r.
    pub open spec fn step8(self, y: u8, down: bool) -> (CpuState, u32) {
        let r = if down {
            alu::dec8(self.r8(y), self.reg.f)
        } else {
            alu::inc8(self.r8(y), self.reg.f)
        };
        (self.with_f(r.1).with_r8(y, r.0), cost(y, 1, 3))
    }

    /// Column 6 of the first quarter: LD r,n.
    pub open spec fn load8(self, y: u8) -> (CpuState, u32) {
        let (n, s) = self.fetch8();
        (s.with_r8(y, n), cost(y, 2, 3))
    }

    /// Column 7 of the first quarter: RLCA, RRCA, RLA, RRA, DAA, CPL, SCF,
    /// CCF.
    pub open spec fn accumulator(self, y: u8) -> (CpuState, u32) {
        let a = self.reg.a;
        let f = self.reg.f;
        (
            match y {
                0 => self.with_af(alu::clear_z(alu::rlc8(a))),
                1 => self.with_af(alu::clear_z(alu::rrc8(a))),
                2 => self.with_af(alu::clear_z(alu::rl8(a, self.carry()))),
                3 => self.with_af(alu::clear_z(alu::rr8(a, self.carry()))),
                4 => self.with_af(alu::daa(a, f)),
                5 => self.with_af(alu::cpl(a, f)),
                6 => self.with_f(alu::scf(f)),
                _ => self.with_f(alu::ccf(f)),
            },
            1,
        )
    }

    /// The first quarter of the table, 0x00 to 0x3F.
    pub open spec fn execute_q0(self, opcode: u8) -> (CpuState, u32) {
        let y = row(opcode);
        match column(opcode) {
            0 => self.control(y),
            1 => self.load16(y),
            2 => self.indirect(y),
            3 => self.step16(y),
            4 => self.step8(y, false),
            5 => self.step8(y, true),
            6 => self.load8(y),
            _ => self.accumulator(y),
        }
    }

    /// The second quarter, 0x40 to 0x7F: LD r,r', and HALT in the place of
    /// LD (HL),(HL).
    pub open spec fn execute_q1(self, opcode: u8) -> (CpuState, u32) {
        let dst = row(opcode);
        let src = column(opcode);
        if dst == 6 && src == 6 {
            (CpuState { halted: true, ..self }, 1)
        } else {
            (self.with_r8(dst, self.r8(src)), if dst == 6 { 2 } else { cost(src, 1, 2) })
        }
    }

    /// The third quarter, 0x80 to 0xBF: arithmetic and logic on A.
    pub open spec fn execute_q2(self, opcode: u8) -> (CpuState, u32) {
        (self.alu_a(row(opcode), self.r8(column(opcode))), cost(column(opcode), 1, 2))
    }

    /// Column 0 of the last quarter: RET cc, LDH (n),A, ADD SP,e, LDH A,(n),
    /// LD HL,SP+e.
    pub open spec fn ret_or_high(self, y: u8) -> (CpuState, u32) {
        if y < 4 {
            if self.cond(y) {
                (self.ret(), 5)
            } else {
                (self, 2)
            }
        } else {
            let (n, s) = self.fetch8();
            if y == 4 {
                (s.write((0xFF00 + n) as u16, s.reg.a), 3)
            } else if y == 5 {
                let r = alu::add_signed(s.reg.sp, n);
                (s.with_sp(r.0).with_f(r.1), 4)
            } else if y == 6 {
                (s.with_a(s.bus.read((0xFF00 + n) as u16)), 3)
            } else {
                (s.with_hl_f(alu::add_signed(s.reg.sp, n)), 3)
            }
        }
    }

    /// Column 1 of the last quarter: POP rr, RET, RETI, JP HL, LD SP,HL. A
    /// return costs what a conditional return costs when it is taken; RETI
    /// turns the interrupts on at once.
    pub open spec fn pop_or_jump(self, y: u8) -> (CpuState, u32) {
        if y % 2 == 0 {
            (self.pop().1.with_r16_stack(y / 2, self.pop().0), 3)
        } else if y == 1 {
            (self.ret(), 5)
        } else if y == 3 {
            (CpuState { ime: true, ime_next: true, ..self.ret() }, 5)
        } else if y == 5 {
            (self.with_pc(self.hl()), 1)
        } else {
            (self.with_sp(self.hl()), 2)
        }
    }

    /// Column 2 of the last quarter: JP cc,nn, and A to or from the byte at
    /// 0xFF00 + C or at nn.
    pub open spec fn jump_or_absolute(self, y: u8) -> (CpuState, u32) {
        if y < 4 {
            let (nn, s) = self.fetch16();
            if self.cond(y) {
                (s.with_pc(nn), 4)
            } else {
                (s, 3)
            }
        } else if y == 4 {
            (self.write((0xFF00 + self.reg.c) as u16, self.reg.a), 2)
        } else if y == 6 {
            (self.with_a(self.bus.read((0xFF00 + self.reg.c) as u16)), 2)
        } else {
            let (nn, s) = self.fetch16();
            if y == 5 {
                (s.write(nn, s.reg.a), 4)
            } else {
                (s.with_a(s.bus.read(nn)), 4)
            }
        }
    }

    /// Column 3 of the last quarter: JP nn, the CB prefix, DI, EI. DI takes
    /// effect at once; EI when the next step commits it.
    pub open spec fn jump_or_mask(self, y: u8) -> (CpuState, u32) {
        if y == 0 {
            let (nn, s) = self.fetch16();
            (s.with_pc(nn), 4)
        } else if y == 1 {
            let (op, s) = self.fetch8();
            s.execute_cb(op)
        } else if y == 6 {
            (CpuState { ime: false, ime_next: false, ..self }, 1)
        } else if y == 7 {
            (CpuState { ime_next: true, ..self }, 1)
        } else {
            (self, 0)
        }
    }

    /// Columns 4 and 5 of the last quarter: CALL cc,nn, PUSH rr, CALL nn.
    pub open spec fn call_or_push(self, y: u8, column: u8) -> (CpuState, u32) {
        if column == 5 && y % 2 == 0 {
            (self.push(self.r16_stack(y / 2)), 4)
        } else if (column == 4 && y < 4) || (column == 5 && y == 1) {
            let (nn, s) = self.fetch16();
            if column == 5 || self.cond(y) {
                (s.call(nn), 6)
            } else {
                (s, 3)
            }
        } else {
            (self, 0)
        }
    }

    /// The last quarter, 0xC0 to 0xFF. Column 6 is arithmetic and logic on A
    /// with the byte that follows, column 7 is RST.
    pub open spec fn execute_q3(self, opcode: u8) -> (CpuState, u32) {
        let y = row(opcode);
        match column(opcode) {
            0 => self.ret_or_high(y),
            1 => self.pop_or_jump(y),
            2 => self.jump_or_absolute(y),
            3 => self.jump_or_mask(y),
            4 => self.call_or_push(y, 4),
            5 => self.call_or_push(y, 5),
            6 => (self.fetch8().1.alu_a(y, self.fetch8().0), 2),
            _ => (self.call((y * 8) as u16), 4),
        }
    }

    /// The instruction `opcode`. For a byte that is no instruction, the
    /// state as it is, at no cost.
    pub open spec fn execute(self, opcode: u8) -> (CpuState, u32) {
        if !defined(opcode) {
            (self, 0)
        } else if opcode < 0x40 {
            self.execute_q0(opcode)
        } else if opcode < 0x80 {
            self.execute_q1(opcode)
        } else if opcode < 0xC0 {
            self.execute_q2(opcode)
        } else {
            self.execute_q3(opcode)
        }
    }

    /// The instruction `opcode` of the CB table: in its four quarters the
    /// rotates and shifts, BIT, RES and SET, each on the operand that the
    /// column names, with the row as the kind of shift or the bit.
    pub open spec fn execute_cb(self, opcode: u8) -> (CpuState, u32) {
        let y = row(opcode);
        let z = column(opcode);
        let x = self.r8(z);
        if opcode < 0x40 {
            let r = self.rotate(y, x);
            (self.with_f(r.1).with_r8(z, r.0), cost(z, 2, 4))
        } else if opcode < 0x80 {
            (self.with_f(alu::bit8(y, x, self.reg.f)), cost(z, 2, 3))
        } else if opcode < 0xC0 {
            (self.with_r8(z, alu::res8(y, x)), cost(z, 2, 4))
        } else {
            (self.with_r8(z, alu::set8(y, x)), cost(z, 2, 4))
        }
    }
}

/// The operand `z` is a register, or the byte at HL in a cell that keeps
/// what is written to it.
pub open spec fn settable(s: CpuState, z: u8) -> bool {
    z < 8 && (z == 6 ==> MmuState::keeps(s.hl()))
}

/// An operand that was stored reads back, and the registers other than the
/// one stored keep their values.
pub proof fn lemma_store_load(s: CpuState, z: u8, v: u8)
    requires
        s.wf(),
        settable(s, z),
    ensures
        s.with_r8(z, v).r8(z) == v,
        s.with_r8(z, v).wf(),
        settable(s.with_r8(z, v), z),
        s.with_r8(z, v).reg.f == s.reg.f,
        z == 6 ==> s.with_r8(z, v).reg == s.reg,
{
    if z == 6 {
        lemma_write_read(s.bus, s.hl(), v, s.hl());
    }
}

/// A word that was pushed is popped again, and the stack pointer is back
/// where it was, provided the two cells under the stack pointer keep what is
/// written to them.
pub proof fn lemma_push_pop(s: CpuState, value: u16)
    requires
        s.wf(),
        MmuState::keeps(wrap16(s.reg.sp - 1)),
        MmuState::keeps(wrap16(s.reg.sp - 2)),
    ensures
        s.push(value).pop().0 == value,
        s.push(value).pop().1.reg == s.reg,
        s.push(value).wf(),
{
    let sp1 = wrap16(s.reg.sp - 1);
    let sp2 = wrap16(s.reg.sp - 2);
    let s1 = s.with_sp(sp1).write(sp1, high_byte(value));
    lemma_write_read(s.bus, sp1, high_byte(value), sp1);
    lemma_write_read(s1.bus, sp2, low_byte(value), sp1);
    lemma_write_read(s1.bus, sp2, low_byte(value), sp2);
    lemma_bytes_pair(value);
    assert(wrap16(sp2 + 1) == sp1);
    assert(wrap16(sp2 + 2) == s.reg.sp);
}

/// PUSH rr then POP rr leaves the pair as it was; for AF, with the low
/// nibble of F cleared.
pub proof fn lemma_push_pop_pair(s: CpuState, p: u8)
    requires
        s.wf(),
        p < 4,
        MmuState::keeps(wrap16(s.reg.sp - 1)),
        MmuState::keeps(wrap16(s.reg.sp - 2)),
    ensures
        s.call_or_push((2 * p) as u8, 5).0.pop_or_jump((2 * p) as u8).0.reg == if p == 3 {
            Reg { f: s.reg.f & 0xF0, ..s.reg }
        } else {
            s.reg
        },
{
    let v = s.r16_stack(p);
    lemma_push_pop(s, v);
    lemma_pair_bytes(s.reg.b, s.reg.c);
    lemma_pair_bytes(s.reg.d, s.reg.e);
    lemma_pair_bytes(s.reg.h, s.reg.l);
    lemma_pair_bytes(s.reg.a, s.reg.f);
}

/// INC then DEC of an operand restores it; so does DEC then INC. Only the
/// flags may differ.
pub proof fn lemma_inc_dec_restores(s: CpuState, y: u8)
    requires
        s.wf(),
        settable(s, y),
    ensures
        s.step8(y, false).0.step8(y, true).0.r8(y) == s.r8(y),
        s.step8(y, true).0.step8(y, false).0.r8(y) == s.r8(y),
        y != 6 ==> s.step8(y, false).0.step8(y, true).0 == s.with_f(
            s.step8(y, false).0.step8(y, true).0.reg.f,
        ),
{
    let x = s.r8(y);
    let up = alu::inc8(x, s.reg.f);
    let s1 = s.with_f(up.1);
    assert(s1.hl() == s.hl());
    lemma_flags_byte(up.0 == 0, false, x % 16 + 1 > 0xF, flag_in(s.reg.f, Flag::C));
    lemma_store_load(s1, y, up.0);
    let s2 = s1.with_r8(y, up.0);
    let down = alu::dec8(up.0, s2.reg.f);
    lemma_flags_byte(down.0 == 0, true, up.0 % 16 == 0, flag_in(s2.reg.f, Flag::C));
    lemma_store_load(s2.with_f(down.1), y, down.0);
    alu::lemma_inc_dec(x, s.reg.f, s2.reg.f);

    let dn = alu::dec8(x, s.reg.f);
    let t1 = s.with_f(dn.1);
    assert(t1.hl() == s.hl());
    lemma_flags_byte(dn.0 == 0, true, x % 16 == 0, flag_in(s.reg.f, Flag::C));
    lemma_store_load(t1, y, dn.0);
    let t2 = t1.with_r8(y, dn.0);
    let upp = alu::inc8(dn.0, t2.reg.f);
    lemma_flags_byte(upp.0 == 0, false, dn.0 % 16 + 1 > 0xF, flag_in(t2.reg.f, Flag::C));
    lemma_store_load(t2.with_f(upp.1), y, upp.0);
    alu::lemma_inc_dec(x, s.reg.f, t2.reg.f);
}

/// SWAP twice restores the operand and leaves Z saying whether it is zero,
/// with N, H and C clear.
pub proof fn lemma_swap_twice_restores(s: CpuState, z: u8)
    requires
        s.wf(),
        settable(s, z),
    ensures
        s.execute_cb((0x30 + z) as u8).0.execute_cb((0x30 + z) as u8).0.r8(z) == s.r8(z),
        s.execute_cb((0x30 + z) as u8).0.execute_cb((0x30 + z) as u8).0.reg.f == flags_byte(
            s.r8(z) == 0,
            false,
            false,
            false,
        ),
{
    let op = (0x30 + z) as u8;
    assert(row(op) == 6 && column(op) == z);
    let x = s.r8(z);
    let r1 = alu::swap8(x);
    lemma_flags_byte(x == 0, false, false, false);
    let s1 = s.with_f(r1.1);
    assert(s1.hl() == s.hl());
    lemma_store_load(s1, z, r1.0);
    let s2 = s1.with_r8(z, r1.0);
    assert(s2 == s.execute_cb(op).0);
    let r2 = alu::swap8(r1.0);
    lemma_flags_byte(r1.0 == 0, false, false, false);
    let s3 = s2.with_f(r2.1);
    assert(s3.hl() == s2.hl());
    assert(s3.r8(z) == s2.r8(z));
    lemma_store_load(s3, z, r2.0);
    alu::lemma_swap_twice(x);
}

/// RES n then SET n of an operand leaves bit n set and the other bits as
/// they were; SET n then RES n leaves bit n clear and the other bits as they
/// were.
pub proof fn lemma_res_set_restores(s: CpuState, n: u8, z: u8)
    requires
        s.wf(),
        n < 8,
        settable(s, z),
    ensures
        s.execute_cb((0x80 + 8 * n + z) as u8).0.execute_cb((0xC0 + 8 * n + z) as u8).0.r8(z)
            == alu::set8(n, s.r8(z)),
        s.execute_cb((0xC0 + 8 * n + z) as u8).0.execute_cb((0x80 + 8 * n + z) as u8).0.r8(z)
            == alu::res8(n, s.r8(z)),
        (alu::set8(n, s.r8(z)) >> n) & 1 == 1,
        (alu::res8(n, s.r8(z)) >> n) & 1 == 0,
        forall|m: u8|
            m < 8 && m != n ==> (#[trigger] (alu::set8(n, s.r8(z)) >> m)) & 1 == (s.r8(z) >> m) & 1,
        forall|m: u8|
            m < 8 && m != n ==> (#[trigger] (alu::res8(n, s.r8(z)) >> m)) & 1 == (s.r8(z) >> m) & 1,
{
    let res = (0x80 + 8 * n + z) as u8;
    let set = (0xC0 + 8 * n + z) as u8;
    assert(row(res) == n && column(res) == z);
    assert(row(set) == n && column(set) == z);
    let x = s.r8(z);
    lemma_store_load(s, z, alu::res8(n, x));
    lemma_store_load(s.with_r8(z, alu::res8(n, x)), z, alu::set8(n, alu::res8(n, x)));
    lemma_store_load(s, z, alu::set8(n, x));
    lemma_store_load(s.with_r8(z, alu::set8(n, x)), z, alu::res8(n, alu::set8(n, x)));
    alu::lemma_res_set(n, x);
}

/// JR with the displacement -2 comes back to its own opcode: it loops for
/// ever.
pub proof fn lemma_jr_self(s: CpuState)
    requires
        s.bus.read(s.reg.pc) == 0x18,
        s.bus.read(wrap16(s.reg.pc + 1)) == 0xFE,
    ensures
        s.fetch8().1.execute(s.fetch8().0).0 == s,
        s.fetch8().1.execute(s.fetch8().0).1 == 3,
{
    assert(row(0x18) == 3 && column(0x18) == 0);
}

} // verus!
