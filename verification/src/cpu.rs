//! The processor: its state, the ways an instruction reaches its operands,
//! the arithmetic helpers, and the step that serves an interrupt or runs one
//! instruction.

use vstd::prelude::*;
use crate::alu;
use crate::alu::{wrap16, lemma_low_bits, lemma_low_nibble};
use crate::isa::{column, defined, row};
use crate::memory::{Mmu, MmuState};
use crate::register::{
    flag_in,
    flags_byte,
    high_byte,
    hi,
    join,
    lemma_flags_byte,
    lo,
    low_byte,
    pair,
    Flag,
    Reg,
};

verus! {

/// Machine cycles that the service of an interrupt takes.
pub const SERVICE_CYCLES: u32 = 5;

/// Machine cycles that pass in one step of a halted processor.
pub const HALT_CYCLES: u32 = 1;

/// Why the processor stopped.
#[derive(Clone, Copy, Debug, PartialEq, Eq, Structural)]
pub enum CpuError {
    /// The byte `opcode`, fetched at `pc`, is no instruction.
    UnknownOpcode { opcode: u8, pc: u16 },
}

/// The processor with the bus it drives.
pub struct Cpu {
    pub reg: Reg,
    pub membus: Mmu,
    /// Interrupts are served.
    pub ime: bool,
    /// What `ime` becomes when the next step commits it.
    pub ime_next: bool,
    /// The processor sleeps until a requested interrupt is enabled.
    pub halted: bool,
}

/// The processor and its bus as a value.
pub struct CpuState {
    pub reg: Reg,
    pub bus: MmuState,
    pub ime: bool,
    pub ime_next: bool,
    pub halted: bool,
}

impl View for Cpu {
    type V = CpuState;

    open spec fn view(&self) -> CpuState {
        CpuState {
            reg: self.reg,
            bus: self.membus@,
            ime: self.ime,
            ime_next: self.ime_next,
            halted: self.halted,
        }
    }
}

impl CpuState {
    /// The low nibble of F is zero, and the memories have their sizes.
    pub open spec fn wf(self) -> bool {
        self.reg.wf() && self.bus.wf()
    }

    /// The state with other registers.
    pub open spec fn with_reg(self, reg: Reg) -> CpuState {
        CpuState { reg, ..self }
    }

    /// The state with another program counter.
    pub open spec fn with_pc(self, pc: u16) -> CpuState {
        CpuState { reg: Reg { pc, ..self.reg }, ..self }
    }

    /// The state with another stack pointer.
    pub open spec fn with_sp(self, sp: u16) -> CpuState {
        CpuState { reg: Reg { sp, ..self.reg }, ..self }
    }

    /// The state with another A.
    pub open spec fn with_a(self, a: u8) -> CpuState {
        CpuState { reg: Reg { a, ..self.reg }, ..self }
    }

    /// The state with another flag byte.
    pub open spec fn with_f(self, f: u8) -> CpuState {
        CpuState { reg: Reg { f, ..self.reg }, ..self }
    }

    /// The state with A and the flag byte of an arithmetic result.
    pub open spec fn with_af(self, r: (u8, u8)) -> CpuState {
        CpuState { reg: Reg { a: r.0, f: r.1, ..self.reg }, ..self }
    }

    /// The state with HL and the flag byte of an arithmetic result.
    pub open spec fn with_hl_f(self, r: (u16, u8)) -> CpuState {
        CpuState { reg: Reg { h: high_byte(r.0), l: low_byte(r.0), f: r.1, ..self.reg }, ..self }
    }

    /// The state after the bus took a write.
    pub open spec fn write(self, addr: u16, val: u8) -> CpuState {
        CpuState { bus: self.bus.write(addr, val), ..self }
    }

    /// The state after `d` machine cycles passed on the bus.
    pub open spec fn advance(self, d: u32) -> CpuState {
        CpuState { bus: self.bus.advance(d), ..self }
    }

    /// The carry flag.
    pub open spec fn carry(self) -> bool {
        flag_in(self.reg.f, Flag::C)
    }

    /// The pair HL.
    pub open spec fn hl(self) -> u16 {
        pair(self.reg.h, self.reg.l)
    }

    /// The byte at the program counter, and the state with the program
    /// counter one further.
    pub open spec fn fetch8(self) -> (u8, CpuState) {
        (self.bus.read(self.reg.pc), self.with_pc(wrap16(self.reg.pc + 1)))
    }

    /// The word at the program counter, low byte first, and the state with
    /// the program counter two further.
    pub open spec fn fetch16(self) -> (u16, CpuState) {
        let (low, s1) = self.fetch8();
        let (high, s2) = s1.fetch8();
        (pair(high, low), s2)
    }

    /// The state after `value` was pushed: the stack pointer goes down by
    /// one and takes the high byte, then down by one more and takes the low
    /// byte.
    pub open spec fn push(self, value: u16) -> CpuState {
        let sp1 = wrap16(self.reg.sp - 1);
        let sp2 = wrap16(self.reg.sp - 2);
        self.with_sp(sp1).write(sp1, high_byte(value)).with_sp(sp2).write(sp2, low_byte(value))
    }

    /// The word on top of the stack, and the state with the stack pointer
    /// two further up.
    pub open spec fn pop(self) -> (u16, CpuState) {
        let low = self.bus.read(self.reg.sp);
        let high = self.bus.read(wrap16(self.reg.sp + 1));
        (pair(high, low), self.with_sp(wrap16(self.reg.sp + 2)))
    }

    /// The state with the halt left if a request is enabled, whether or not
    /// interrupts are served.
    pub open spec fn woken(self) -> CpuState {
        if self.halted && self.bus.wakes() {
            CpuState { halted: false, ..self }
        } else {
            self
        }
    }

    /// An interrupt is served in this state: interrupts are on and one is
    /// pending.
    pub open spec fn serves(self) -> bool {
        self.ime && self.bus.vector() is Some
    }

    /// The state after the service of the pending interrupt that comes
    /// first: its request is acknowledged, interrupts are off, the program
    /// counter is pushed and replaced by the vector, and five machine cycles
    /// have passed on the bus.
    pub open spec fn service(self) -> CpuState {
        (CpuState { bus: self.bus.acknowledge(), ime: false, ime_next: false, ..self }).call(
            self.bus.vector().unwrap() as u16,
        ).advance(SERVICE_CYCLES)
    }

    /// The state in which the step looks for an interrupt: the serial
    /// link's byte has been taken, and a halt has been left if a request is
    /// enabled.
    pub open spec fn entered(self) -> CpuState {
        (CpuState { bus: self.bus.serial_taken(), ..self }).woken()
    }

    /// The state in which the step fetches, if it serves no interrupt: the
    /// delayed value of the interrupt switch has been committed.
    pub open spec fn committed(self) -> CpuState {
        CpuState { ime: self.entered().ime_next, ..self.entered() }
    }

    /// The opcode that the step fetches, if it comes to fetch.
    pub open spec fn fetches(self) -> Option<u8> {
        if self.entered().serves() || self.committed().halted {
            None
        } else {
            Some(self.committed().fetch8().0)
        }
    }

    /// The machine cycles that the step takes: five for the service of an
    /// interrupt, one while halted, else the cost of the instruction. None
    /// if the step fetches a byte that is no instruction.
    pub open spec fn step_cycles(self) -> Option<u32> {
        match self.fetches() {
            None => if self.entered().serves() {
                Some(SERVICE_CYCLES)
            } else {
                Some(HALT_CYCLES)
            },
            Some(op) => if defined(op) {
                Some(self.committed().fetch8().1.execute(op).1)
            } else {
                None
            },
        }
    }

    /// The state after one step. The step serves an interrupt; or, halted,
    /// lets one machine cycle pass; or runs one instruction and lets its
    /// cost pass on the bus. A byte that is no instruction stops the step
    /// where the byte has been fetched.
    pub open spec fn step(self) -> CpuState {
        match self.fetches() {
            None => if self.entered().serves() {
                self.entered().service()
            } else {
                self.committed().advance(HALT_CYCLES)
            },
            Some(op) => {
                let fetched = self.committed().fetch8().1;
                if defined(op) {
                    fetched.execute(op).0.advance(fetched.execute(op).1)
                } else {
                    fetched
                }
            },
        }
    }
}

impl Cpu {
    /// The low nibble of F is zero.
    pub open spec fn wf(&self) -> bool {
        self.reg.wf()
    }

    /// A processor on the bus `mem`, as the boot sequence leaves it:
    /// interrupts off, not halted.
    pub fn from(mem: Mmu) -> (cpu: Self)
        ensures
            cpu@ == (CpuState {
                reg: Reg {
                    a: 0x01,
                    f: 0xB0,
                    b: 0x00,
                    c: 0x13,
                    d: 0x00,
                    e: 0xD8,
                    h: 0x01,
                    l: 0x4D,
                    sp: 0xFFFE,
                    pc: 0x0100,
                },
                bus: mem@,
                ime: false,
                ime_next: false,
                halted: false,
            }),
            cpu.wf(),
    {
        Cpu { reg: Reg::new(), membus: mem, ime: false, ime_next: false, halted: false }
    }

    /// Reads the byte at the program counter and moves the program counter
    /// past it.
    pub fn read_byte(&mut self) -> (byte: u8)
        ensures
            (byte, final(self)@) == old(self)@.fetch8(),
            final(self).wf() == old(self).wf(),
    {
        let byte: u8 = self.membus.read(self.reg.pc);
        self.reg.pc = self.reg.pc.wrapping_add(1);
        byte
    }

    /// Reads the word at the program counter, low byte first.
    pub fn read_word(&mut self) -> (word: u16)
        ensures
            (word, final(self)@) == old(self)@.fetch16(),
            final(self).wf() == old(self).wf(),
    {
        let lsb: u8 = self.read_byte();
        let msb: u8 = self.read_byte();
        join(msb, lsb)
    }

    /// Pushes a word on the stack.
    pub fn push_stack(&mut self, value: u16)
        ensures
            final(self)@ == old(self)@.push(value),
            final(self).wf() == old(self).wf(),
    {
        self.reg.sp = self.reg.sp.wrapping_sub(1);
        self.membus.write(self.reg.sp, hi(value));
        self.reg.sp = self.reg.sp.wrapping_sub(1);
        self.membus.write(self.reg.sp, lo(value));
    }

    /// Pops a word from the stack.
    pub fn pop_stack(&mut self) -> (value: u16)
        ensures
            (value, final(self)@) == old(self)@.pop(),
            final(self).wf() == old(self).wf(),
    {
        let lsb: u8 = self.membus.read(self.reg.sp);
        self.reg.sp = self.reg.sp.wrapping_add(1);
        let msb: u8 = self.membus.read(self.reg.sp);
        self.reg.sp = self.reg.sp.wrapping_add(1);
        join(msb, lsb)
    }

    /// ADD A,b.
    pub fn alu_add(&mut self, b: u8)
        ensures
            final(self)@ == old(self)@.with_af(alu::add8(old(self).reg.a, b, false)),
            final(self).wf(),
    {
        let a: u8 = self.reg.a;
        let res: u8 = a.wrapping_add(b);
        proof {
            lemma_low_nibble(a);
            lemma_low_nibble(b);
        }
        let h: bool = (a & 0x0F) + (b & 0x0F) > 0x0F;
        let c: bool = (a as u16) + (b as u16) > 0xFF;
        self.reg.set_flags(res == 0, false, h, c);
        self.reg.a = res;
    }

    /// ADC A,b.
    pub fn alu_adc(&mut self, b: u8)
        ensures
            final(self)@ == old(self)@.with_af(alu::add8(old(self).reg.a, b, old(self)@.carry())),
            final(self).wf(),
    {
        let a: u8 = self.reg.a;
        let c: u8 = if self.reg.flag(Flag::C) {
            1
        } else {
            0
        };
        let res: u8 = a.wrapping_add(c).wrapping_add(b);
        proof {
            lemma_low_nibble(a);
            lemma_low_nibble(b);
        }
        let h: bool = (a & 0x0F) + (b & 0x0F) + c > 0x0F;
        let carry: bool = (a as u16) + (b as u16) + (c as u16) > 0xFF;
        self.reg.set_flags(res == 0, false, h, carry);
        self.reg.a = res;
    }

    /// SUB A,b.
    pub fn alu_sub(&mut self, b: u8)
        ensures
            final(self)@ == old(self)@.with_af(alu::sub8(old(self).reg.a, b, false)),
            final(self).wf(),
    {
        let a: u8 = self.reg.a;
        let res: u8 = a.wrapping_sub(b);
        proof {
            lemma_low_nibble(a);
            lemma_low_nibble(b);
        }
        let h: bool = (a & 0x0F) < (b & 0x0F);
        self.reg.set_flags(res == 0, true, h, a < b);
        self.reg.a = res;
    }

    /// SBC A,b.
    pub fn alu_sbc(&mut self, b: u8)
        ensures
            final(self)@ == old(self)@.with_af(alu::sub8(old(self).reg.a, b, old(self)@.carry())),
            final(self).wf(),
    {
        let a: u8 = self.reg.a;
        let c: u8 = if self.reg.flag(Flag::C) {
            1
        } else {
            0
        };
        let res: u8 = a.wrapping_sub(c).wrapping_sub(b);
        proof {
            lemma_low_nibble(a);
            lemma_low_nibble(b);
        }
        let h: bool = (a & 0x0F) < (b & 0x0F) + c;
        let carry: bool = (a as u16) < (b as u16) + (c as u16);
        self.reg.set_flags(res == 0, true, h, carry);
        self.reg.a = res;
    }

    /// AND A,b.
    pub fn alu_and(&mut self, b: u8)
        ensures
            final(self)@ == old(self)@.with_af(alu::and8(old(self).reg.a, b)),
            final(self).wf(),
    {
        let res: u8 = self.reg.a & b;
        self.reg.set_flags(res == 0, false, true, false);
        self.reg.a = res;
    }

    /// XOR A,b.
    pub fn alu_xor(&mut self, b: u8)
        ensures
            final(self)@ == old(self)@.with_af(alu::xor8(old(self).reg.a, b)),
            final(self).wf(),
    {
        let res: u8 = self.reg.a ^ b;
        self.reg.set_flags(res == 0, false, false, false);
        self.reg.a = res;
    }

    /// OR A,b.
    pub fn alu_or(&mut self, b: u8)
        ensures
            final(self)@ == old(self)@.with_af(alu::or8(old(self).reg.a, b)),
            final(self).wf(),
    {
        let res: u8 = self.reg.a | b;
        self.reg.set_flags(res == 0, false, false, false);
        self.reg.a = res;
    }

    /// CP A,b.
    pub fn alu_cp(&mut self, b: u8)
        ensures
            final(self)@ == old(self)@.with_af(alu::cp8(old(self).reg.a, b)),
            final(self).wf(),
    {
        let a: u8 = self.reg.a;
        self.alu_sub(b);
        self.reg.a = a;
    }

    /// INC of a byte.
    pub fn alu_inc(&mut self, b: u8) -> (res: u8)
        ensures
            res == alu::inc8(b, old(self).reg.f).0,
            final(self)@ == old(self)@.with_f(alu::inc8(b, old(self).reg.f).1),
            final(self).wf(),
    {
        let res: u8 = b.wrapping_add(1);
        proof {
            lemma_low_nibble(b);
        }
        let h: bool = (b & 0x0F) + 1 > 0x0F;
        let c: bool = self.reg.flag(Flag::C);
        self.reg.set_flags(res == 0, false, h, c);
        res
    }

    /// DEC of a byte.
    pub fn alu_dec(&mut self, b: u8) -> (res: u8)
        ensures
            res == alu::dec8(b, old(self).reg.f).0,
            final(self)@ == old(self)@.with_f(alu::dec8(b, old(self).reg.f).1),
            final(self).wf(),
    {
        let res: u8 = b.wrapping_sub(1);
        proof {
            lemma_low_nibble(b);
        }
        let h: bool = (b & 0x0F) == 0;
        let c: bool = self.reg.flag(Flag::C);
        self.reg.set_flags(res == 0, true, h, c);
        res
    }

    /// SWAP of a byte.
    pub fn alu_swap(&mut self, b: u8) -> (res: u8)
        ensures
            res == alu::swap8(b).0,
            final(self)@ == old(self)@.with_f(alu::swap8(b).1),
            final(self).wf(),
    {
        self.reg.set_flags(b == 0, false, false, false);
        (b << 4u8) | (b >> 4u8)
    }

    /// BIT bit,b.
    pub fn alu_bit(&mut self, bit: u8, b: u8)
        requires
            bit < 8,
        ensures
            final(self)@ == old(self)@.with_f(alu::bit8(bit, b, old(self).reg.f)),
            final(self).wf(),
    {
        let c: bool = self.reg.flag(Flag::C);
        self.reg.set_flags((b >> bit) & 1 == 0, false, true, c);
    }

    /// RR of a byte.
    pub fn alu_rr(&mut self, b: u8) -> (res: u8)
        ensures
            res == alu::rr8(b, old(self)@.carry()).0,
            final(self)@ == old(self)@.with_f(alu::rr8(b, old(self)@.carry()).1),
            final(self).wf(),
    {
        let c: u8 = b & 1;
        let res: u8 = (b >> 1u8) | (if self.reg.flag(Flag::C) {
            0x80u8
        } else {
            0u8
        });
        self.reg.set_flags(res == 0, false, false, c == 1);
        res
    }

    /// RRC of a byte.
    pub fn alu_rrc(&mut self, b: u8) -> (res: u8)
        ensures
            res == alu::rrc8(b).0,
            final(self)@ == old(self)@.with_f(alu::rrc8(b).1),
            final(self).wf(),
    {
        let c: u8 = b & 1;
        let res: u8 = (b >> 1u8) | (c << 7u8);
        self.reg.set_flags(res == 0, false, false, c == 1);
        res
    }

    /// RL of a byte.
    pub fn alu_rl(&mut self, b: u8) -> (res: u8)
        ensures
            res == alu::rl8(b, old(self)@.carry()).0,
            final(self)@ == old(self)@.with_f(alu::rl8(b, old(self)@.carry()).1),
            final(self).wf(),
    {
        let c: u8 = b & 0x80;
        let res: u8 = (b << 1u8) | (if self.reg.flag(Flag::C) {
            1u8
        } else {
            0u8
        });
        self.reg.set_flags(res == 0, false, false, c == 0x80);
        res
    }

    /// RLC of a byte.
    pub fn alu_rlc(&mut self, b: u8) -> (res: u8)
        ensures
            res == alu::rlc8(b).0,
            final(self)@ == old(self)@.with_f(alu::rlc8(b).1),
            final(self).wf(),
    {
        let c: u8 = b & 0x80;
        let res: u8 = (b << 1u8) | (c >> 7u8);
        self.reg.set_flags(res == 0, false, false, c == 0x80);
        res
    }

    /// SRL of a byte.
    pub fn alu_srl(&mut self, b: u8) -> (res: u8)
        ensures
            res == alu::srl8(b).0,
            final(self)@ == old(self)@.with_f(alu::srl8(b).1),
            final(self).wf(),
    {
        let res: u8 = b >> 1u8;
        self.reg.set_flags(res == 0, false, false, (b & 1) == 1);
        res
    }

    /// SLA of a byte.
    pub fn alu_sla(&mut self, b: u8) -> (res: u8)
        ensures
            res == alu::sla8(b).0,
            final(self)@ == old(self)@.with_f(alu::sla8(b).1),
            final(self).wf(),
    {
        let res: u8 = b << 1u8;
        self.reg.set_flags(res == 0, false, false, (b & 0x80) == 0x80);
        res
    }

    /// SRA of a byte.
    pub fn alu_sra(&mut self, b: u8) -> (res: u8)
        ensures
            res == alu::sra8(b).0,
            final(self)@ == old(self)@.with_f(alu::sra8(b).1),
            final(self).wf(),
    {
        let res: u8 = (b & 0x80) | (b >> 1u8);
        self.reg.set_flags(res == 0, false, false, (b & 1) == 1);
        res
    }

    /// ADD HL,b.
    pub fn alu_add16(&mut self, b: u16)
        ensures
            final(self)@ == old(self)@.with_hl_f(alu::add16(old(self)@.hl(), b, old(self).reg.f)),
            final(self).wf(),
    {
        let hl: u16 = self.reg.hl();
        let res: u16 = hl.wrapping_add(b);
        proof {
            lemma_low_bits(hl);
            lemma_low_bits(b);
        }
        let h: bool = (hl & 0xFFF) + (b & 0xFFF) > 0xFFF;
        let c: bool = hl > 0xFFFF - b;
        let z: bool = self.reg.flag(Flag::Z);
        self.reg.set_flags(z, false, h, c);
        self.reg.set_hl(res);
    }

    /// Reads a signed displacement at the program counter and adds it to
    /// `a`, as ADD SP,e and LD HL,SP+e do.
    pub fn alu_add16imm(&mut self, a: u16) -> (res: u16)
        ensures
            res == alu::add_signed(a, old(self)@.fetch8().0).0,
            final(self)@ == old(self)@.fetch8().1.with_f(
                alu::add_signed(a, old(self)@.fetch8().0).1,
            ),
            final(self).wf(),
    {
        let byte: u8 = self.read_byte();
        let (res, h, c) = add_displacement(a, byte);
        self.reg.set_flags(false, false, h, c);
        res
    }

    /// DAA.
    pub fn alu_daa(&mut self)
        ensures
            final(self)@ == old(self)@.with_af(alu::daa(old(self).reg.a, old(self).reg.f)),
            final(self).wf(),
    {
        let n: bool = self.reg.flag(Flag::N);
        let h: bool = self.reg.flag(Flag::H);
        let c: bool = self.reg.flag(Flag::C);
        let a: u8 = self.reg.a;
        let (value, carry) = daa_adjust(a, n, h, c);
        self.reg.set_flags(value == 0, n, false, carry);
        self.reg.a = value;
    }

    /// CPL.
    pub fn alu_cpl(&mut self)
        ensures
            final(self)@ == old(self)@.with_af(alu::cpl(old(self).reg.a, old(self).reg.f)),
            final(self).wf(),
    {
        let z: bool = self.reg.flag(Flag::Z);
        let c: bool = self.reg.flag(Flag::C);
        self.reg.set_flags(z, true, true, c);
        self.reg.a = !self.reg.a;
    }

    /// SCF.
    pub fn alu_scf(&mut self)
        ensures
            final(self)@ == old(self)@.with_f(alu::scf(old(self).reg.f)),
            final(self).wf(),
    {
        let z: bool = self.reg.flag(Flag::Z);
        self.reg.set_flags(z, false, false, true);
    }

    /// CCF.
    pub fn alu_ccf(&mut self)
        ensures
            final(self)@ == old(self)@.with_f(alu::ccf(old(self).reg.f)),
            final(self).wf(),
    {
        let z: bool = self.reg.flag(Flag::Z);
        let c: bool = self.reg.flag(Flag::C);
        self.reg.set_flags(z, false, false, !c);
    }

    /// Clears Z, as the rotates of A outside the CB table do.
    pub fn clear_zero(&mut self)
        ensures
            final(self)@ == old(self)@.with_f(alu::clear_z((old(self).reg.a, old(self).reg.f)).1),
            final(self).wf(),
    {
        let n: bool = self.reg.flag(Flag::N);
        let h: bool = self.reg.flag(Flag::H);
        let c: bool = self.reg.flag(Flag::C);
        self.reg.set_flags(false, n, h, c);
    }

    /// Reads the byte at HL.
    pub fn load_hl(&self) -> (byte: u8)
        ensures
            byte == self@.bus.read(self@.hl()),
    {
        self.membus.read(self.reg.hl())
    }

    /// Writes the byte at HL.
    pub fn store_hl(&mut self, val: u8)
        ensures
            final(self)@ == old(self)@.write(old(self)@.hl(), val),
            final(self).wf() == old(self).wf(),
    {
        let addr: u16 = self.reg.hl();
        self.membus.write(addr, val);
    }

    /// Writes A at `addr`.
    pub fn store_a(&mut self, addr: u16)
        ensures
            final(self)@ == old(self)@.write(addr, old(self).reg.a),
            final(self).wf() == old(self).wf(),
    {
        let a: u8 = self.reg.a;
        self.membus.write(addr, a);
    }

    /// Reads A from `addr`.
    pub fn load_a(&mut self, addr: u16)
        ensures
            final(self)@ == old(self)@.with_a(old(self)@.bus.read(addr)),
            final(self).wf() == old(self).wf(),
    {
        self.reg.a = self.membus.read(addr);
    }

    /// Moves the program counter by a signed displacement.
    pub fn jump_rel(&mut self, e: u8)
        ensures
            final(self)@ == old(self)@.jump_rel(e),
            final(self).wf() == old(self).wf(),
    {
        self.reg.pc = displaced(self.reg.pc, e);
    }

    /// Pushes the program counter and goes to `target`.
    pub fn call(&mut self, target: u16)
        ensures
            final(self)@ == old(self)@.call(target),
            final(self).wf() == old(self).wf(),
    {
        let pc: u16 = self.reg.pc;
        self.push_stack(pc);
        self.reg.pc = target;
    }

    /// Pops the program counter.
    pub fn ret(&mut self)
        ensures
            final(self)@ == old(self)@.ret(),
            final(self).wf() == old(self).wf(),
    {
        let pc: u16 = self.pop_stack();
        self.reg.pc = pc;
    }

    /// Reads the 8-bit operand `i`: B, C, D, E, H, L, the byte at HL, A.
    pub fn get_r8(&self, i: u8) -> (v: u8)
        ensures
            v == self@.r8(i),
    {
        match i {
            0 => self.reg.b,
            1 => self.reg.c,
            2 => self.reg.d,
            3 => self.reg.e,
            4 => self.reg.h,
            5 => self.reg.l,
            6 => self.load_hl(),
            _ => self.reg.a,
        }
    }

    /// Writes the 8-bit operand `i`.
    pub fn set_r8(&mut self, i: u8, v: u8)
        ensures
            final(self)@ == old(self)@.with_r8(i, v),
            final(self).wf() == old(self).wf(),
    {
        match i {
            0 => self.reg.b = v,
            1 => self.reg.c = v,
            2 => self.reg.d = v,
            3 => self.reg.e = v,
            4 => self.reg.h = v,
            5 => self.reg.l = v,
            6 => self.store_hl(v),
            _ => self.reg.a = v,
        }
    }

    /// Reads the 16-bit operand `i`: BC, DE, HL, SP.
    pub fn get_r16(&self, i: u8) -> (v: u16)
        ensures
            v == self@.r16(i),
    {
        match i {
            0 => self.reg.bc(),
            1 => self.reg.de(),
            2 => self.reg.hl(),
            _ => self.reg.sp,
        }
    }

    /// Writes the 16-bit operand `i`.
    pub fn set_r16(&mut self, i: u8, v: u16)
        ensures
            final(self)@ == old(self)@.with_r16(i, v),
            final(self).wf() == old(self).wf(),
    {
        match i {
            0 => self.reg.set_bc(v),
            1 => self.reg.set_de(v),
            2 => self.reg.set_hl(v),
            _ => self.reg.sp = v,
        }
    }

    /// Reads the pair `i` that PUSH and POP name: BC, DE, HL, AF.
    pub fn get_r16_stack(&self, i: u8) -> (v: u16)
        ensures
            v == self@.r16_stack(i),
    {
        if i == 3 {
            self.reg.af()
        } else {
            self.get_r16(i)
        }
    }

    /// Writes the pair `i` that PUSH and POP name.
    pub fn set_r16_stack(&mut self, i: u8, v: u16)
        ensures
            final(self)@ == old(self)@.with_r16_stack(i, v),
            old(self).wf() ==> final(self).wf(),
    {
        if i == 3 {
            self.reg.set_af(v);
        } else {
            self.set_r16(i, v);
        }
    }

    /// Tests the condition `i`: NZ, Z, NC, C.
    pub fn cond(&self, i: u8) -> (r: bool)
        ensures
            r == self@.cond(i),
    {
        match i {
            0 => !self.reg.flag(Flag::Z),
            1 => self.reg.flag(Flag::Z),
            2 => !self.reg.flag(Flag::C),
            _ => self.reg.flag(Flag::C),
        }
    }

    /// Runs one step and gives the byte that the serial link had ready to
    /// send, if any, with the machine cycles that the step took. The step
    /// first leaves a halt if a request is enabled. Then it serves the
    /// pending interrupt if interrupts are on; if not, it commits the
    /// delayed interrupt switch and, unless halted, fetches and runs one
    /// instruction. A byte that is no instruction ends the step with an
    /// error.
    pub fn cycle(&mut self) -> (r: (Option<u8>, Result<u32, CpuError>))
        ensures
            old(self).wf() ==> final(self).wf(),
            final(self)@ == old(self)@.step(),
            r.0 == old(self)@.bus.serial_out(),
            match old(self)@.step_cycles() {
                Some(cycles) => r.1 == Ok::<u32, CpuError>(cycles),
                None => r.1 == Err::<u32, CpuError>(
                    CpuError::UnknownOpcode {
                        opcode: old(self)@.fetches().unwrap(),
                        pc: old(self).reg.pc,
                    },
                ),
            },
    {
        let serial: Option<u8> = self.membus.take_serial();
        if self.halted && self.membus.wakes() {
            self.halted = false;
        }
        if self.ime {
            if let Some(vector) = self.membus.interrupt_addr() {
                self.ime = false;
                self.ime_next = false;
                self.call(vector as u16);
                self.membus.do_cycles(SERVICE_CYCLES);
                return (serial, Ok(SERVICE_CYCLES));
            }
        }
        self.ime = self.ime_next;
        if self.halted {
            self.membus.do_cycles(HALT_CYCLES);
            return (serial, Ok(HALT_CYCLES));
        }
        let opcode: u8 = self.read_byte();
        match self.exec(opcode) {
            Ok(m_cycles) => {
                self.membus.do_cycles(m_cycles);
                (serial, Ok(m_cycles))
            },
            Err(e) => (serial, Err(e)),
        }
    }
}

/// The decimal correction of `a` and the carry that it leaves, from the three
/// flags that it reads.
pub fn daa_adjust(a: u8, n: bool, h: bool, c: bool) -> (r: (u8, bool))
    ensures
        forall|f: u8|
            flag_in(f, Flag::N) == n && flag_in(f, Flag::H) == h && flag_in(f, Flag::C) == c
                ==> #[trigger] alu::daa(a, f) == (r.0, flags_byte(r.0 == 0, n, false, r.1)),
{
    if !n {
        let high: bool = c || a > 0x99;
        let a1: u8 = if high {
            a.wrapping_add(0x60)
        } else {
            a
        };
        assert(a1 == if high { alu::wrap8(a + 0x60) } else { a });
        proof {
            lemma_low_nibble(a1);
        }
        let a2: u8 = if h || (a1 & 0x0F) > 0x09 {
            a1.wrapping_add(0x06)
        } else {
            a1
        };
        assert(a2 == if h || a1 % 16 > 9 { alu::wrap8(a1 + 0x06) } else { a1 });
        (a2, high)
    } else {
        let a1: u8 = if c {
            a.wrapping_sub(0x60)
        } else {
            a
        };
        assert(a1 == if c { alu::wrap8(a - 0x60) } else { a });
        let a2: u8 = if h {
            a1.wrapping_sub(0x06)
        } else {
            a1
        };
        assert(a2 == if h { alu::wrap8(a1 - 0x06) } else { a1 });
        (a2, c)
    }
}

/// The row and the column of an opcode.
pub fn fields(opcode: u8) -> (r: (u8, u8))
    ensures
        r.0 == row(opcode),
        r.1 == column(opcode),
        r.0 < 8,
        r.1 < 8,
{
    assert((opcode >> 3u8) & 7 == (opcode / 8) % 8 && opcode & 7 == opcode % 8) by (bit_vector);
    ((opcode >> 3u8) & 7, opcode & 7)
}

/// The address `a` moved by the signed displacement `e`.
pub fn displaced(a: u16, e: u8) -> (r: u16)
    ensures
        r == wrap16(a + alu::signed(e)),
{
    if e < 0x80 {
        a.wrapping_add(e as u16)
    } else {
        a.wrapping_sub(0x100 - (e as u16))
    }
}

/// The address `a` moved by the signed displacement `e`, with the half carry
/// and the carry of the unsigned sum of the low bytes.
pub fn add_displacement(a: u16, e: u8) -> (r: (u16, bool, bool))
    ensures
        r.0 == alu::add_signed(a, e).0,
        alu::add_signed(a, e).1 == flags_byte(false, false, r.1, r.2),
{
    proof {
        lemma_low_bits(a);
        lemma_low_nibble(e);
    }
    let h: bool = (a & 0x0F) + ((e & 0x0F) as u16) > 0x0F;
    let c: bool = (a & 0xFF) + (e as u16) > 0xFF;
    (displaced(a, e), h, c)
}

} // verus!
