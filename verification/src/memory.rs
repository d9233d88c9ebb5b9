//! The memory bus: 64 KiB of address space, with the ranges and registers
//! that the timer, the joypad, the interrupt controller and the LCD
//! controller answer for.

use vstd::prelude::*;
use crate::buttons::Btns;
use crate::graphics::{Gpu, GpuState};
use crate::timer::Timer;

verus! {

/// Bytes of a ROM image that are mapped at address 0.
pub const ROM_SIZE: usize = 0x8000;

/// First address of object attribute memory, the target of a DMA transfer.
pub const OAM_BASE: usize = 0xFE00;

/// Bytes that a DMA transfer copies.
pub const DMA_LEN: usize = 160;

/// Machine cycles that a DMA transfer takes.
pub const DMA_CYCLES: u32 = 160;

/// What a read of LY gives.
pub const LY_READ: u8 = 0x90;

/// The bus and everything behind it.
pub struct Mmu {
    pub ram: [u8; 65536],
    /// Interrupt enable.
    pub ie: u8,
    /// Interrupt requests.
    pub iflag: u8,
    pub timer: Timer,
    pub btns: Btns,
    pub gpu: Gpu,
}

/// The bus as a value: plain memory as a sequence of 65536 bytes, and the
/// state of each peripheral.
pub struct MmuState {
    pub ram: Seq<u8>,
    pub ie: u8,
    pub iflag: u8,
    pub timer: Timer,
    pub btns: Btns,
    pub gpu: GpuState,
}

impl View for Mmu {
    type V = MmuState;

    open spec fn view(&self) -> MmuState {
        MmuState {
            ram: self.ram@,
            ie: self.ie,
            iflag: self.iflag,
            timer: self.timer,
            btns: self.btns,
            gpu: self.gpu@,
        }
    }
}

/// The vector and the request bit of the interrupt that is served first
/// among those set in `pending`: vertical blank, LCD status, timer, serial,
/// joypad, in this order.
pub open spec fn first_interrupt(pending: u8) -> Option<(u8, u8)> {
    if pending & 0x01 != 0 {
        Some((0x40u8, 0x01u8))
    } else if pending & 0x02 != 0 {
        Some((0x48u8, 0x02u8))
    } else if pending & 0x04 != 0 {
        Some((0x50u8, 0x04u8))
    } else if pending & 0x08 != 0 {
        Some((0x58u8, 0x08u8))
    } else if pending & 0x10 != 0 {
        Some((0x60u8, 0x10u8))
    } else {
        None
    }
}

/// Plain memory after a DMA transfer from page `page`: the 160 bytes of
/// object attribute memory hold what the 160 bytes from `page * 0x100` on
/// held, and nothing else has changed.
pub open spec fn dma_copy(ram: Seq<u8>, page: u8) -> Seq<u8> {
    Seq::new(
        65536,
        |i: int|
            if 0xFE00 <= i < 0xFE00 + 160 {
                ram[page * 0x100 + (i - 0xFE00)]
            } else {
                ram[i]
            },
    )
}

/// Plain memory after a ROM image was mapped: its first 0x8000 bytes, or
/// all of them if it has fewer, lie from address 0 on.
pub open spec fn rom_loaded(ram: Seq<u8>, data: Seq<u8>) -> Seq<u8> {
    Seq::new(65536, |i: int| if i < data.len() && i < 0x8000 { data[i] } else { ram[i] })
}

impl MmuState {
    /// Memory and video RAM have their sizes.
    pub open spec fn wf(self) -> bool {
        self.ram.len() == 65536 && self.gpu.wf()
    }

    /// The bus after reset.
    pub open spec fn reset() -> MmuState {
        MmuState {
            ram: Seq::new(65536, |i: int| 0u8),
            ie: 0xE1,
            iflag: 0,
            timer: Timer { div: 0xAB, tima: 0, tma: 0, tac: 0xF8, running_div: 0, running_counter: 0 },
            btns: Btns { row: 0xF0, btn_nib: 0x0F, dpad_nib: 0x0F },
            gpu: GpuState::reset(),
        }
    }

    /// The interrupts that are both requested and enabled.
    pub open spec fn pending(self) -> u8 {
        self.iflag & self.ie
    }

    /// A bit is set both in the requests and in the enable mask: what ends
    /// a halt.
    pub open spec fn wakes(self) -> bool {
        self.pending() != 0
    }

    /// The byte that a read of `addr` gives.
    pub open spec fn read(self, addr: u16) -> u8 {
        if 0x8000 <= addr <= 0x9FFF {
            self.gpu.vram_at(addr)
        } else {
            self.read_io(addr)
        }
    }

    /// The byte that a read of `addr` gives, outside video RAM.
    pub open spec fn read_io(self, addr: u16) -> u8 {
        match addr {
            0xFF00 => self.btns.data_spec(),
            0xFF04 => self.timer.div,
            0xFF05 => self.timer.tima,
            0xFF06 => self.timer.tma,
            0xFF07 => self.timer.tac,
            0xFF0F => self.iflag,
            0xFF40 => self.gpu.lcdc,
            0xFF41 => self.gpu.stat,
            0xFF42 => self.gpu.scy,
            0xFF43 => self.gpu.scx,
            0xFF44 => LY_READ,
            0xFF45 => self.gpu.lyc,
            0xFF46 => 0,
            0xFF47 => self.gpu.bgp,
            0xFF48 => self.gpu.obp0,
            0xFF49 => self.gpu.obp1,
            0xFF4A => self.gpu.wy,
            0xFF4B => self.gpu.wx,
            0xFFFF => self.ie,
            _ => self.ram[addr as int],
        }
    }

    /// The requests that `d` machine cycles add to the interrupt requests:
    /// the timer's (bit 2) when TIMA overflows, the joypad's (bit 4) while
    /// any key is held down, and the LCD controller's two (bits 0 and 1)
    /// while their predicates hold.
    pub open spec fn raised(self, d: u32) -> u8 {
        (if self.timer.overflows(d) { 0x04u8 } else { 0u8 })
            | (if self.btns.any_pressed_spec() { 0x10u8 } else { 0u8 })
            | (if self.gpu.vblank() { 0x01u8 } else { 0u8 })
            | (if self.gpu.stat_line() { 0x02u8 } else { 0u8 })
    }

    /// The bus `d` machine cycles later.
    pub open spec fn advance(self, d: u32) -> MmuState {
        MmuState { timer: self.timer.advance_spec(d), iflag: self.iflag | self.raised(d), ..self }
    }

    /// The bus after a DMA transfer from page `page`, which takes 160
    /// machine cycles.
    pub open spec fn dma(self, page: u8) -> MmuState {
        (MmuState { ram: dma_copy(self.ram, page), ..self }).advance(DMA_CYCLES)
    }

    /// The bus after `val` was written to `addr`. The cartridge's range does
    /// not take writes.
    pub open spec fn write(self, addr: u16, val: u8) -> MmuState {
        if addr < 0x8000 {
            self
        } else if addr <= 0x9FFF {
            MmuState { gpu: self.gpu.with_vram(addr, val), ..self }
        } else {
            self.write_io(addr, val)
        }
    }

    /// The bus after `val` was written to `addr`, above video RAM.
    pub open spec fn write_io(self, addr: u16, val: u8) -> MmuState {
        match addr {
            0xFF00 => MmuState { btns: self.btns.pick_row_spec(val), ..self },
            0xFF04 => MmuState { timer: Timer { div: 0, running_div: 0, ..self.timer }, ..self },
            0xFF05 => MmuState { timer: Timer { tima: val, ..self.timer }, ..self },
            0xFF06 => MmuState { timer: Timer { tma: val, ..self.timer }, ..self },
            0xFF07 => MmuState { timer: Timer { tac: val, ..self.timer }, ..self },
            0xFF0F => MmuState { iflag: val, ..self },
            0xFF40 => MmuState { gpu: GpuState { lcdc: val, ..self.gpu }, ..self },
            0xFF41 => MmuState { gpu: GpuState { stat: val, ..self.gpu }, ..self },
            0xFF42 => MmuState { gpu: GpuState { scy: val, ..self.gpu }, ..self },
            0xFF43 => MmuState { gpu: GpuState { scx: val, ..self.gpu }, ..self },
            0xFF44 => self,
            0xFF45 => MmuState { gpu: GpuState { lyc: val, ..self.gpu }, ..self },
            0xFF46 => self.dma(val),
            0xFF47 => MmuState { gpu: GpuState { bgp: val, ..self.gpu }, ..self },
            0xFF48 => MmuState { gpu: GpuState { obp0: val, ..self.gpu }, ..self },
            0xFF49 => MmuState { gpu: GpuState { obp1: val, ..self.gpu }, ..self },
            0xFF4A => MmuState { gpu: GpuState { wy: val, ..self.gpu }, ..self },
            0xFF4B => MmuState { gpu: GpuState { wx: val, ..self.gpu }, ..self },
            0xFFFF => MmuState { ie: val, ..self },
            _ => MmuState { ram: self.ram.update(addr as int, val), ..self },
        }
    }

    /// The bus after the interrupt that is served first was acknowledged:
    /// its request bit is cleared. Without a pending interrupt, the bus as
    /// it is.
    pub open spec fn acknowledge(self) -> MmuState {
        match first_interrupt(self.pending()) {
            Some((_, bit)) => MmuState { iflag: self.iflag & !bit, ..self },
            None => self,
        }
    }

    /// The vector of the interrupt that is served first, if one is pending.
    pub open spec fn vector(self) -> Option<u8> {
        match first_interrupt(self.pending()) {
            Some((v, _)) => Some(v),
            None => None,
        }
    }

    /// Whether `addr` is a cell that keeps what is written to it and whose
    /// writes touch nothing else: video RAM, plain memory, and the registers
    /// other than the joypad's, DIV, LY and the DMA trigger.
    pub open spec fn keeps(addr: u16) -> bool {
        addr >= 0x8000 && addr != 0xFF00 && addr != 0xFF04 && addr != 0xFF44 && addr != 0xFF46
    }

    /// The byte that the serial link has ready to send: the one at 0xFF01,
    /// when 0xFF02 holds 0x81.
    pub open spec fn serial_out(self) -> Option<u8> {
        if self.read(0xFF02) == 0x81 {
            Some(self.read(0xFF01))
        } else {
            None
        }
    }

    /// The bus after the serial link's byte was taken: 0xFF02 holds 0.
    pub open spec fn serial_taken(self) -> MmuState {
        if self.read(0xFF02) == 0x81 {
            self.write(0xFF02, 0)
        } else {
            self
        }
    }
}

proof fn lemma_interrupt_bits(pending: u8, iflag: u8, ie: u8, bit: u8)
    by (bit_vector)
    ensures
        (pending & 0x1F != 0) <==> (pending & 0x01 != 0 || pending & 0x02 != 0 || pending & 0x04
            != 0 || pending & 0x08 != 0 || pending & 0x10 != 0),
        (iflag & !bit) & bit == 0,
        ((iflag & !bit) & ie) & bit == 0,
        ie & iflag == iflag & ie,
        1u8 << 0u8 == 1 && 1u8 << 1u8 == 2 && 1u8 << 2u8 == 4 && 1u8 << 3u8 == 8 && 1u8 << 4u8 == 16,
{
}

/// An interrupt is served exactly when one of the five is requested and
/// enabled. Its vector is one of the five service addresses, and after the
/// acknowledgement its request bit is clear.
pub proof fn lemma_interrupt_service(s: MmuState)
    ensures
        s.vector() is Some <==> s.ie & s.iflag & 0x1F != 0,
        s.vector() is None ==> s.acknowledge() == s,
        first_interrupt(s.pending()) matches Some((v, bit)) ==> {
            &&& v == 0x40 || v == 0x48 || v == 0x50 || v == 0x58 || v == 0x60
            &&& bit == 1u8 << (((v - 0x40) / 8) as u8)
            &&& s.pending() & bit != 0
            &&& s.acknowledge().iflag & bit == 0
            &&& s.acknowledge().pending() & bit == 0
        },
{
    let p = s.pending();
    match first_interrupt(p) {
        Some((v, bit)) => {
            lemma_interrupt_bits(p, s.iflag, s.ie, bit);
        },
        None => {
            lemma_interrupt_bits(p, s.iflag, s.ie, 0);
        },
    }
}

/// A cell that keeps what is written reads back the byte last written, and
/// a write to it is seen at no other address.
pub proof fn lemma_write_read(s: MmuState, addr: u16, val: u8, other: u16)
    requires
        s.wf(),
        MmuState::keeps(addr),
    ensures
        s.write(addr, val).wf(),
        s.write(addr, val).read(addr) == val,
        other != addr ==> s.write(addr, val).read(other) == s.read(other),
{
}

impl Mmu {
    /// The bus after reset.
    pub fn new() -> (r: Self)
        ensures
            r@ == MmuState::reset(),
    {
        let r = Mmu {
            ram: [0u8;65536],
            ie: 0xE1,
            iflag: 0,
            timer: Timer::new(),
            btns: Btns::new(),
            gpu: Gpu::new(),
        };
        assert(r@.ram =~= MmuState::reset().ram);
        r
    }

    /// Maps a ROM image at address 0. An image of more than 0x8000 bytes is
    /// cut off there.
    pub fn load_rom(&mut self, data: &[u8])
        ensures
            final(self)@ == (MmuState { ram: rom_loaded(old(self)@.ram, data@), ..old(self)@ }),
    {
        let n: usize = if data.len() < ROM_SIZE {
            data.len()
        } else {
            ROM_SIZE
        };
        let mut i: usize = 0;
        while i < n
            invariant
                i <= n,
                n <= data.len(),
                n <= ROM_SIZE,
                forall|k: int| 0 <= k < i ==> self.ram@[k] == data@[k],
                forall|k: int| i <= k < 65536 ==> self.ram@[k] == old(self).ram@[k],
                self@ == (MmuState { ram: self.ram@, ..old(self)@ }),
            decreases n - i,
        {
            self.ram[i] = data[i];
            i += 1;
        }
        assert(self.ram@ =~= rom_loaded(old(self)@.ram, data@));
    }

    /// Whether a bit is set both in the requests and in the enable mask.
    pub fn wakes(&self) -> (r: bool)
        ensures
            r == self@.wakes(),
    {
        self.iflag & self.ie != 0
    }

    /// Gives the vector of the pending interrupt that is served first, and
    /// acknowledges it by clearing its request.
    pub fn interrupt_addr(&mut self) -> (r: Option<u8>)
        ensures
            r == old(self)@.vector(),
            final(self)@ == old(self)@.acknowledge(),
            r is Some <==> old(self).ie & old(self).iflag & 0x1F != 0,
            r matches Some(v) ==> {
                &&& v == 0x40 || v == 0x48 || v == 0x50 || v == 0x58 || v == 0x60
                &&& final(self).iflag & (1u8 << (((v - 0x40) / 8) as u8)) == 0
            },
    {
        proof {
            lemma_interrupt_service(self@);
        }
        let requested: u8 = self.iflag & self.ie;
        let (addr, bit): (u8, u8) = if requested & 0x01 != 0 {
            (0x40, 0x01)
        } else if requested & 0x02 != 0 {
            (0x48, 0x02)
        } else if requested & 0x04 != 0 {
            (0x50, 0x04)
        } else if requested & 0x08 != 0 {
            (0x58, 0x08)
        } else if requested & 0x10 != 0 {
            (0x60, 0x10)
        } else {
            return None;
        };
        self.iflag = self.iflag & !bit;
        Some(addr)
    }

    /// Reads a byte. The bus is left as it is.
    pub fn read(&self, addr: u16) -> (r: u8)
        ensures
            r == self@.read(addr),
            addr == 0xFF44 ==> r == 0x90,
    {
        if 0x8000 <= addr && addr <= 0x9FFF {
            return self.gpu.read_vram(addr);
        }
        match addr {
            0xFF00 => self.btns.data(),
            0xFF04 => self.timer.div,
            0xFF05 => self.timer.tima,
            0xFF06 => self.timer.tma,
            0xFF07 => self.timer.tac,
            0xFF0F => self.iflag,
            0xFF40 => self.gpu.lcdc,
            0xFF41 => self.gpu.stat,
            0xFF42 => self.gpu.scy,
            0xFF43 => self.gpu.scx,
            0xFF44 => LY_READ,
            0xFF45 => self.gpu.lyc,
            0xFF46 => 0,
            0xFF47 => self.gpu.bgp,
            0xFF48 => self.gpu.obp0,
            0xFF49 => self.gpu.obp1,
            0xFF4A => self.gpu.wy,
            0xFF4B => self.gpu.wx,
            0xFFFF => self.ie,
            _ => self.ram[addr as usize],
        }
    }

    /// Writes a byte. A write to the cartridge's range or to LY does nothing,
    /// one to DIV clears it, one to 0xFF46 starts a DMA transfer, one to the
    /// joypad register sets its select lines.
    pub fn write(&mut self, addr: u16, val: u8)
        ensures
            final(self)@ == old(self)@.write(addr, val),
    {
        if addr < 0x8000 {
            return ;
        }
        if addr <= 0x9FFF {
            self.gpu.write_vram(addr, val);
            return ;
        }
        match addr {
            0xFF00 => self.btns.pick_row(val),
            0xFF04 => {
                self.timer.div = 0;
                self.timer.running_div = 0;
            },
            0xFF05 => self.timer.tima = val,
            0xFF06 => self.timer.tma = val,
            0xFF07 => self.timer.tac = val,
            0xFF0F => self.iflag = val,
            0xFF40 => self.gpu.lcdc = val,
            0xFF41 => self.gpu.stat = val,
            0xFF42 => self.gpu.scy = val,
            0xFF43 => self.gpu.scx = val,
            0xFF44 => {},
            0xFF45 => self.gpu.lyc = val,
            0xFF46 => self.dma_transfer(val),
            0xFF47 => self.gpu.bgp = val,
            0xFF48 => self.gpu.obp0 = val,
            0xFF49 => self.gpu.obp1 = val,
            0xFF4A => self.gpu.wy = val,
            0xFF4B => self.gpu.wx = val,
            0xFFFF => self.ie = val,
            _ => {
                self.ram[addr as usize] = val;
            },
        }
    }

    /// Lets `m_cycles` machine cycles pass on the bus: the timer runs, and
    /// the interrupts that the timer, the joypad and the LCD controller ask
    /// for are requested.
    pub fn do_cycles(&mut self, m_cycles: u32)
        ensures
            final(self)@ == old(self)@.advance(m_cycles),
    {
        let timer_irq: u8 = if self.timer.advance(m_cycles) {
            0x04
        } else {
            0
        };
        let joypad_irq: u8 = if self.btns.any_pressed() {
            0x10
        } else {
            0
        };
        let vblank_irq: u8 = if self.gpu.should_vblank_interrupt() {
            0x01
        } else {
            0
        };
        let stat_irq: u8 = if self.gpu.should_stat_interrupt() {
            0x02
        } else {
            0
        };
        self.iflag = self.iflag | (timer_irq | joypad_irq | vblank_irq | stat_irq);
    }

    /// Copies 160 bytes from page `val` to object attribute memory and lets
    /// the 160 machine cycles pass that the transfer takes.
    pub fn dma_transfer(&mut self, val: u8)
        ensures
            final(self)@ == old(self)@.dma(val),
    {
        let source: usize = (val as usize) * 0x100;
        let mut offset: usize = 0;
        while offset < DMA_LEN
            invariant
                offset <= DMA_LEN,
                source == val * 0x100,
                forall|k: int|
                    0xFE00 <= k < 0xFE00 + offset ==> #[trigger] self.ram@[k] == old(self).ram@[source
                        + (k - 0xFE00)],
                forall|k: int|
                    0 <= k < 65536 && !(0xFE00 <= k < 0xFE00 + offset) ==> self.ram@[k] == old(
                        self,
                    ).ram@[k],
                self@ == (MmuState { ram: self.ram@, ..old(self)@ }),
            decreases DMA_LEN - offset,
        {
            self.ram[OAM_BASE + offset] = self.ram[source + offset];
            offset += 1;
        }
        assert(self.ram@ =~= dma_copy(old(self)@.ram, val));
        self.do_cycles(DMA_CYCLES);
    }

    /// Takes the byte that the serial link has ready to send, if there is
    /// one, and clears the link's control register.
    pub fn take_serial(&mut self) -> (r: Option<u8>)
        ensures
            r == old(self)@.serial_out(),
            final(self)@ == old(self)@.serial_taken(),
    {
        if self.read(0xFF02) == 0x81 {
            let byte: u8 = self.read(0xFF01);
            self.write(0xFF02, 0);
            Some(byte)
        } else {
            None
        }
    }
}

} // verus!
