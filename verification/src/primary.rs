//! The primary table of instructions, run group by group: each quarter of
//! the table by the columns that its opcodes fall in.

use vstd::prelude::*;
use crate::cpu::{fields, Cpu, CpuError};
use crate::isa::defined;
use crate::alu::wrap16;
use crate::register::{hi, lo};

verus! {

impl Cpu {
    /// NOP, LD (nn),SP, STOP, JR e and JR cc,e.
    fn control(&mut self, y: u8) -> (cycles: u32)
        requires
            y < 8,
        ensures
            (final(self)@, cycles) == old(self)@.control(y),
            old(self).wf() ==> final(self).wf(),
    {
        if y == 0 || y == 2 {
            1
        } else if y == 1 {
            let nn: u16 = self.read_word();
            let sp: u16 = self.reg.sp;
            self.membus.write(nn, lo(sp));
            self.membus.write(nn.wrapping_add(1), hi(sp));
            5
        } else {
            let taken: bool = y == 3 || self.cond(y - 4);
            let e: u8 = self.read_byte();
            if taken {
                self.jump_rel(e);
                3
            } else {
                2
            }
        }
    }

    /// LD rr,nn and ADD HL,rr.
    fn load16(&mut self, y: u8) -> (cycles: u32)
        requires
            y < 8,
        ensures
            (final(self)@, cycles) == old(self)@.load16(y),
            old(self).wf() ==> final(self).wf(),
    {
        if y % 2 == 0 {
            let nn: u16 = self.read_word();
            self.set_r16(y / 2, nn);
            3
        } else {
            let v: u16 = self.get_r16(y / 2);
            self.alu_add16(v);
            2
        }
    }

    /// LD (BC),A, LD (DE),A, LD (HL+),A, LD (HL-),A and their reverses.
    fn indirect(&mut self, y: u8) -> (cycles: u32)
        requires
            y < 8,
        ensures
            (final(self)@, cycles) == old(self)@.indirect(y),
            old(self).wf() ==> final(self).wf(),
    {
        let p: u8 = y / 2;
        let addr: u16 = if p == 0 {
            self.reg.bc()
        } else if p == 1 {
            self.reg.de()
        } else {
            self.reg.hl()
        };
        if y % 2 == 0 {
            self.store_a(addr);
        } else {
            self.load_a(addr);
        }
        if p == 2 {
            self.reg.set_hl(addr.wrapping_add(1));
        } else if p == 3 {
            self.reg.set_hl(addr.wrapping_sub(1));
        }
        2
    }

    /// INC rr and DEC rr.
    fn step16(&mut self, y: u8) -> (cycles: u32)
        requires
            y < 8,
        ensures
            (final(self)@, cycles) == old(self)@.step16(y),
            old(self).wf() ==> final(self).wf(),
    {
        let v: u16 = self.get_r16(y / 2);
        if y % 2 == 0 {
            self.set_r16(y / 2, v.wrapping_add(1));
        } else {
            self.set_r16(y / 2, v.wrapping_sub(1));
        }
        2
    }

    /// INC r and DEC r.
    fn step8(&mut self, y: u8, down: bool) -> (cycles: u32)
        requires
            y < 8,
        ensures
            (final(self)@, cycles) == old(self)@.step8(y, down),
            old(self).wf() ==> final(self).wf(),
    {
        let v: u8 = self.get_r8(y);
        let res: u8 = if down {
            self.alu_dec(v)
        } else {
            self.alu_inc(v)
        };
        self.set_r8(y, res);
        if y == 6 {
            3
        } else {
            1
        }
    }

    /// LD r,n.
    fn load8(&mut self, y: u8) -> (cycles: u32)
        requires
            y < 8,
        ensures
            (final(self)@, cycles) == old(self)@.load8(y),
            old(self).wf() ==> final(self).wf(),
    {
        let n: u8 = self.read_byte();
        self.set_r8(y, n);
        if y == 6 {
            3
        } else {
            2
        }
    }

    /// RLCA, RRCA, RLA, RRA, DAA, CPL, SCF and CCF.
    fn accumulator(&mut self, y: u8) -> (cycles: u32)
        requires
            y < 8,
        ensures
            (final(self)@, cycles) == old(self)@.accumulator(y),
            old(self).wf() ==> final(self).wf(),
    {
        if y < 4 {
            let a: u8 = self.reg.a;
            let res: u8 = match y {
                0 => self.alu_rlc(a),
                1 => self.alu_rrc(a),
                2 => self.alu_rl(a),
                _ => self.alu_rr(a),
            };
            self.reg.a = res;
            self.clear_zero();
        } else if y == 4 {
            self.alu_daa();
        } else if y == 5 {
            self.alu_cpl();
        } else if y == 6 {
            self.alu_scf();
        } else {
            self.alu_ccf();
        }
        1
    }

    /// Arithmetic and logic on A with the operand `b`.
    fn alu_a(&mut self, op: u8, b: u8)
        ensures
            final(self)@ == old(self)@.alu_a(op, b),
            old(self).wf() ==> final(self).wf(),
    {
        match op {
            0 => self.alu_add(b),
            1 => self.alu_adc(b),
            2 => self.alu_sub(b),
            3 => self.alu_sbc(b),
            4 => self.alu_and(b),
            5 => self.alu_xor(b),
            6 => self.alu_or(b),
            _ => self.alu_cp(b),
        }
    }

    /// RET cc, LDH (n),A, ADD SP,e, LDH A,(n) and LD HL,SP+e.
    fn ret_or_high(&mut self, y: u8) -> (cycles: u32)
        requires
            y < 8,
        ensures
            (final(self)@, cycles) == old(self)@.ret_or_high(y),
            old(self).wf() ==> final(self).wf(),
    {
        if y < 4 {
            if self.cond(y) {
                self.ret();
                5
            } else {
                2
            }
        } else if y == 4 {
            let n: u8 = self.read_byte();
            self.store_a(0xFF00 + (n as u16));
            3
        } else if y == 5 {
            let sp: u16 = self.reg.sp;
            let res: u16 = self.alu_add16imm(sp);
            self.reg.sp = res;
            4
        } else if y == 6 {
            let n: u8 = self.read_byte();
            self.load_a(0xFF00 + (n as u16));
            3
        } else {
            let sp: u16 = self.reg.sp;
            let res: u16 = self.alu_add16imm(sp);
            self.reg.set_hl(res);
            3
        }
    }

    /// POP rr, RET, RETI, JP HL and LD SP,HL.
    fn pop_or_jump(&mut self, y: u8) -> (cycles: u32)
        requires
            y < 8,
        ensures
            (final(self)@, cycles) == old(self)@.pop_or_jump(y),
            old(self).wf() ==> final(self).wf(),
    {
        if y % 2 == 0 {
            let v: u16 = self.pop_stack();
            self.set_r16_stack(y / 2, v);
            3
        } else if y == 1 {
            self.ret();
            5
        } else if y == 3 {
            self.ret();
            self.ime = true;
            self.ime_next = true;
            5
        } else if y == 5 {
            self.reg.pc = self.reg.hl();
            1
        } else {
            self.reg.sp = self.reg.hl();
            2
        }
    }

    /// JP cc,nn, LD (C),A, LD (nn),A, LD A,(C) and LD A,(nn).
    fn jump_or_absolute(&mut self, y: u8) -> (cycles: u32)
        requires
            y < 8,
        ensures
            (final(self)@, cycles) == old(self)@.jump_or_absolute(y),
            old(self).wf() ==> final(self).wf(),
    {
        if y < 4 {
            let taken: bool = self.cond(y);
            let nn: u16 = self.read_word();
            if taken {
                self.reg.pc = nn;
                4
            } else {
                3
            }
        } else if y == 4 {
            self.store_a(0xFF00 + (self.reg.c as u16));
            2
        } else if y == 6 {
            self.load_a(0xFF00 + (self.reg.c as u16));
            2
        } else {
            let nn: u16 = self.read_word();
            if y == 5 {
                self.store_a(nn);
            } else {
                self.load_a(nn);
            }
            4
        }
    }

    /// CALL cc,nn, PUSH rr and CALL nn.
    fn call_or_push(&mut self, y: u8, column: u8) -> (cycles: u32)
        requires
            y < 8,
            column == 4 || column == 5,
            (column == 4 && y < 4) || (column == 5 && (y % 2 == 0 || y == 1)),
        ensures
            (final(self)@, cycles) == old(self)@.call_or_push(y, column),
            old(self).wf() ==> final(self).wf(),
    {
        if column == 5 && y % 2 == 0 {
            let v: u16 = self.get_r16_stack(y / 2);
            self.push_stack(v);
            4
        } else {
            let taken: bool = column == 5 || self.cond(y);
            let nn: u16 = self.read_word();
            if taken {
                self.call(nn);
                6
            } else {
                3
            }
        }
    }

    /// The first quarter of the table.
    fn exec_q0(&mut self, opcode: u8) -> (cycles: u32)
        requires
            opcode < 0x40,
        ensures
            (final(self)@, cycles) == old(self)@.execute_q0(opcode),
            old(self).wf() ==> final(self).wf(),
    {
        let (y, z) = fields(opcode);
        match z {
            0 => self.control(y),
            1 => self.load16(y),
            2 => self.indirect(y),
            3 => self.step16(y),
            4 => self.step8(y, false),
            5 => self.step8(y, true),
            6 => self.load8(y),
            _ => self.accumulator(y),
        }
    }

    /// The second quarter: the moves between registers, and HALT.
    fn exec_q1(&mut self, opcode: u8) -> (cycles: u32)
        requires
            0x40 <= opcode < 0x80,
        ensures
            (final(self)@, cycles) == old(self)@.execute_q1(opcode),
            old(self).wf() ==> final(self).wf(),
    {
        let (dst, src) = fields(opcode);
        if dst == 6 && src == 6 {
            self.halted = true;
            1
        } else {
            let v: u8 = self.get_r8(src);
            self.set_r8(dst, v);
            if dst == 6 || src == 6 {
                2
            } else {
                1
            }
        }
    }

    /// The third quarter: arithmetic and logic on A with a register or the
    /// byte at HL.
    fn exec_q2(&mut self, opcode: u8) -> (cycles: u32)
        requires
            0x80 <= opcode < 0xC0,
        ensures
            (final(self)@, cycles) == old(self)@.execute_q2(opcode),
            old(self).wf() ==> final(self).wf(),
    {
        let (op, src) = fields(opcode);
        let v: u8 = self.get_r8(src);
        self.alu_a(op, v);
        if src == 6 {
            2
        } else {
            1
        }
    }

    /// The last quarter: returns, jumps, calls, the stack, the loads at
    /// fixed addresses, the interrupt switch and the prefix.
    fn exec_q3(&mut self, opcode: u8) -> (cycles: u32)
        requires
            0xC0 <= opcode,
            defined(opcode),
        ensures
            (final(self)@, cycles) == old(self)@.execute_q3(opcode),
            old(self).wf() ==> final(self).wf(),
    {
        let (y, z) = fields(opcode);
        match z {
            0 => self.ret_or_high(y),
            1 => self.pop_or_jump(y),
            2 => self.jump_or_absolute(y),
            3 => {
                if y == 0 {
                    let nn: u16 = self.read_word();
                    self.reg.pc = nn;
                    4
                } else if y == 1 {
                    let op: u8 = self.read_byte();
                    self.exec_cb(op)
                } else if y == 6 {
                    self.ime = false;
                    self.ime_next = false;
                    1
                } else {
                    self.ime_next = true;
                    1
                }
            },
            4 => self.call_or_push(y, 4),
            5 => self.call_or_push(y, 5),
            6 => {
                let n: u8 = self.read_byte();
                self.alu_a(y, n);
                2
            },
            _ => {
                self.call((y as u16) * 8);
                4
            },
        }
    }

    /// Runs the instruction `opcode`, which has been fetched, and gives its
    /// cost in machine cycles. A byte that is no instruction is refused and
    /// changes nothing.
    pub fn exec(&mut self, opcode: u8) -> (r: Result<u32, CpuError>)
        ensures
            old(self).wf() ==> final(self).wf(),
            final(self)@ == old(self)@.execute(opcode).0,
            defined(opcode) ==> r == Ok::<u32, CpuError>(old(self)@.execute(opcode).1),
            !defined(opcode) ==> r == Err::<u32, CpuError>(
                CpuError::UnknownOpcode { opcode, pc: wrap16(old(self).reg.pc - 1) },
            ),
    {
        if !is_defined(opcode) {
            Err(CpuError::UnknownOpcode { opcode, pc: self.reg.pc.wrapping_sub(1) })
        } else if opcode < 0x40 {
            Ok(self.exec_q0(opcode))
        } else if opcode < 0x80 {
            Ok(self.exec_q1(opcode))
        } else if opcode < 0xC0 {
            Ok(self.exec_q2(opcode))
        } else {
            Ok(self.exec_q3(opcode))
        }
    }
}

/// Whether the byte is an instruction.
pub fn is_defined(opcode: u8) -> (r: bool)
    ensures
        r == defined(opcode),
{
    match opcode {
        0xD3 | 0xDB | 0xDD | 0xE3 | 0xE4 | 0xEB | 0xEC | 0xED | 0xF4 | 0xFC | 0xFD => false,
        _ => true,
    }
}

} // verus!
