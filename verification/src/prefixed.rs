//! The table of the instructions that follow the prefix 0xCB: rotates and
//! shifts, and the test, the clearing and the setting of single bits.

use vstd::prelude::*;
use crate::cpu::{fields, Cpu};

verus! {

impl Cpu {
    /// Rotates or shifts `v` in the way that `kind` names and sets the
    /// flags.
    pub fn rotate(&mut self, kind: u8, v: u8) -> (res: u8)
        ensures
            res == old(self)@.rotate(kind, v).0,
            final(self)@ == old(self)@.with_f(old(self)@.rotate(kind, v).1),
            old(self).wf() ==> final(self).wf(),
    {
        match kind {
            0 => self.alu_rlc(v),
            1 => self.alu_rrc(v),
            2 => self.alu_rl(v),
            3 => self.alu_rr(v),
            4 => self.alu_sla(v),
            5 => self.alu_sra(v),
            6 => self.alu_swap(v),
            _ => self.alu_srl(v),
        }
    }

    /// Runs the prefixed instruction `opcode` and gives its cost in machine
    /// cycles.
    pub fn exec_cb(&mut self, opcode: u8) -> (cycles: u32)
        ensures
            (final(self)@, cycles) == old(self)@.execute_cb(opcode),
            old(self).wf() ==> final(self).wf(),
    {
        let (y, z) = fields(opcode);
        let v: u8 = self.get_r8(z);
        let memory: bool = z == 6;
        if opcode < 0x40 {
            let res: u8 = self.rotate(y, v);
            self.set_r8(z, res);
            if memory {
                4
            } else {
                2
            }
        } else if opcode < 0x80 {
            self.alu_bit(y, v);
            if memory {
                3
            } else {
                2
            }
        } else if opcode < 0xC0 {
            self.set_r8(z, v & !(1u8 << y));
            if memory {
                4
            } else {
                2
            }
        } else {
            self.set_r8(z, v | (1u8 << y));
            if memory {
                4
            } else {
                2
            }
        }
    }
}

} // verus!
