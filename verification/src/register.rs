//! The SM83 register file: eight 8-bit registers, the stack pointer and the
//! program counter, with 16-bit views of the register pairs and the flag bits
//! of `F`.

use vstd::prelude::*;

verus! {

/// One of the four condition flags held in the high nibble of `F`.
#[derive(Clone, Copy, Debug, PartialEq, Eq, Structural)]
pub enum Flag {
    /// Zero, bit 7.
    Z,
    /// Subtract, bit 6.
    N,
    /// Half carry, bit 5.
    H,
    /// Carry, bit 4.
    C,
}

/// The bit of `F` that holds `flag`.
pub open spec fn flag_mask(flag: Flag) -> u8 {
    match flag {
        Flag::Z => 0x80u8,
        Flag::N => 0x40u8,
        Flag::H => 0x20u8,
        Flag::C => 0x10u8,
    }
}

/// The 16-bit value whose high byte is `hi` and whose low byte is `lo`.
pub open spec fn pair(hi: u8, lo: u8) -> u16 {
    (hi as u16) << 8 | (lo as u16)
}

/// The high byte of `v`.
pub open spec fn high_byte(v: u16) -> u8 {
    (v >> 8) as u8
}

/// The low byte of `v`.
pub open spec fn low_byte(v: u16) -> u8 {
    (v & 0xFF) as u8
}

/// `f` with the bit of `flag` set when `on`, cleared otherwise, and every
/// other bit kept.
pub open spec fn with_flag(f: u8, flag: Flag, on: bool) -> u8 {
    if on {
        f | flag_mask(flag)
    } else {
        f & !flag_mask(flag)
    }
}

/// Joins two bytes into a 16-bit value, high byte first.
pub fn join(hi: u8, lo: u8) -> (r: u16)
    ensures
        r == pair(hi, lo),
        high_byte(r) == hi,
        low_byte(r) == lo,
{
    proof {
        lemma_pair_bytes(hi, lo);
    }
    ((hi as u16) << 8) | (lo as u16)
}

/// A pair gives back the two bytes that it was joined from.
pub proof fn lemma_pair_bytes(hi: u8, lo: u8)
    by (bit_vector)
    ensures
        ((((hi as u16) << 8) | (lo as u16)) >> 8) as u8 == hi,
        ((((hi as u16) << 8) | (lo as u16)) & 0xFF) as u8 == lo,
{
}

/// A word is the pair of its two bytes.
pub proof fn lemma_bytes_pair(v: u16)
    by (bit_vector)
    ensures
        ((((v >> 8) as u8) as u16) << 8) | (((v & 0xFF) as u8) as u16) == v,
{
}

/// The high byte of a 16-bit value.
pub fn hi(v: u16) -> (r: u8)
    ensures
        r == high_byte(v),
{
    (v >> 8) as u8
}

/// The low byte of a 16-bit value.
pub fn lo(v: u16) -> (r: u8)
    ensures
        r == low_byte(v),
{
    (v & 0xFF) as u8
}

/// The byte of `F` that holds exactly the four given flags.
pub open spec fn flags_byte(z: bool, n: bool, h: bool, c: bool) -> u8 {
    (if z { 0x80u8 } else { 0u8 }) | (if n { 0x40u8 } else { 0u8 }) | (if h { 0x20u8 } else { 0u8 })
        | (if c { 0x10u8 } else { 0u8 })
}

/// Whether the bit of `flag` is set in the flag byte `f`.
pub open spec fn flag_in(f: u8, flag: Flag) -> bool {
    f & flag_mask(flag) != 0
}

proof fn lemma_flag_bits(zb: u8, nb: u8, hb: u8, cb: u8)
    by (bit_vector)
    requires
        zb == 0 || zb == 0x80,
        nb == 0 || nb == 0x40,
        hb == 0 || hb == 0x20,
        cb == 0 || cb == 0x10,
    ensures
        (zb | nb | hb | cb) & 0x0F == 0,
        (zb | nb | hb | cb) & 0x80 == zb,
        (zb | nb | hb | cb) & 0x40 == nb,
        (zb | nb | hb | cb) & 0x20 == hb,
        (zb | nb | hb | cb) & 0x10 == cb,
        (zb | nb | hb | cb) | 0x80 == 0x80 | nb | hb | cb,
        (zb | nb | hb | cb) | 0x40 == zb | 0x40 | hb | cb,
        (zb | nb | hb | cb) | 0x20 == zb | nb | 0x20 | cb,
        (zb | nb | hb | cb) | 0x10 == zb | nb | hb | 0x10,
        (zb | nb | hb | cb) & !0x80u8 == 0 | nb | hb | cb,
        (zb | nb | hb | cb) & !0x40u8 == zb | 0 | hb | cb,
        (zb | nb | hb | cb) & !0x20u8 == zb | nb | 0 | cb,
        (zb | nb | hb | cb) & !0x10u8 == zb | nb | hb | 0,
{
}

/// A flag byte built from four flags has a clear low nibble and gives each
/// flag back; setting or clearing one flag in it changes that flag alone.
pub proof fn lemma_flags_byte(z: bool, n: bool, h: bool, c: bool)
    ensures
        flags_byte(z, n, h, c) & 0x0F == 0,
        flag_in(flags_byte(z, n, h, c), Flag::Z) == z,
        flag_in(flags_byte(z, n, h, c), Flag::N) == n,
        flag_in(flags_byte(z, n, h, c), Flag::H) == h,
        flag_in(flags_byte(z, n, h, c), Flag::C) == c,
        forall|on: bool| #[trigger]
            with_flag(flags_byte(z, n, h, c), Flag::Z, on) == flags_byte(on, n, h, c),
        forall|on: bool| #[trigger]
            with_flag(flags_byte(z, n, h, c), Flag::N, on) == flags_byte(z, on, h, c),
        forall|on: bool| #[trigger]
            with_flag(flags_byte(z, n, h, c), Flag::H, on) == flags_byte(z, n, on, c),
        forall|on: bool| #[trigger]
            with_flag(flags_byte(z, n, h, c), Flag::C, on) == flags_byte(z, n, h, on),
{
    lemma_flag_bits(
        if z { 0x80u8 } else { 0u8 },
        if n { 0x40u8 } else { 0u8 },
        if h { 0x20u8 } else { 0u8 },
        if c { 0x10u8 } else { 0u8 },
    );
}

/// The programmer-visible registers.
#[derive(Clone, Copy, Debug)]
pub struct Reg {
    pub a: u8,
    pub f: u8,
    pub b: u8,
    pub c: u8,
    pub d: u8,
    pub e: u8,
    pub h: u8,
    pub l: u8,
    pub sp: u16,
    pub pc: u16,
}

impl Reg {
    /// The low nibble of `F` is zero.
    pub open spec fn wf(&self) -> bool {
        self.f & 0x0F == 0
    }

    /// Whether `flag` is set.
    pub open spec fn flag_on(&self, flag: Flag) -> bool {
        flag_in(self.f, flag)
    }

    /// The register file as it stands when the boot sequence has ended.
    pub fn new() -> (r: Self)
        ensures
            r == (Reg {
                a: 0x01,
                f: 0xB0,
                b: 0x00,
                c: 0x13,
                d: 0x00,
                e: 0xD8,
                h: 0x01,
                l: 0x4D,
                sp: 0xFFFE,
                pc: 0x0100,
            }),
            r.wf(),
    {
        assert(0xB0u8 & 0x0F == 0) by (bit_vector);
        Reg {
            a: 0x01,
            f: 0xB0,
            b: 0x00,
            c: 0x13,
            d: 0x00,
            e: 0xD8,
            h: 0x01,
            l: 0x4D,
            sp: 0xFFFE,
            pc: 0x0100,
        }
    }

    /// The pair AF.
    pub fn af(&self) -> (r: u16)
        ensures
            r == pair(self.a, self.f),
            high_byte(r) == self.a,
            low_byte(r) == self.f,
    {
        join(self.a, self.f)
    }

    /// The pair BC.
    pub fn bc(&self) -> (r: u16)
        ensures
            r == pair(self.b, self.c),
            high_byte(r) == self.b,
            low_byte(r) == self.c,
    {
        join(self.b, self.c)
    }

    /// The pair DE.
    pub fn de(&self) -> (r: u16)
        ensures
            r == pair(self.d, self.e),
            high_byte(r) == self.d,
            low_byte(r) == self.e,
    {
        join(self.d, self.e)
    }

    /// The pair HL.
    pub fn hl(&self) -> (r: u16)
        ensures
            r == pair(self.h, self.l),
            high_byte(r) == self.h,
            low_byte(r) == self.l,
    {
        join(self.h, self.l)
    }

    /// Writes AF; the low nibble of `F` is dropped.
    pub fn set_af(&mut self, v: u16)
        ensures
            *final(self) == (Reg { a: high_byte(v), f: low_byte(v) & 0xF0, ..*old(self) }),
            final(self).wf(),
    {
        self.a = hi(v);
        let low: u8 = lo(v);
        assert((low & 0xF0) & 0x0F == 0) by (bit_vector);
        self.f = low & 0xF0;
    }

    /// Writes BC.
    pub fn set_bc(&mut self, v: u16)
        ensures
            *final(self) == (Reg { b: high_byte(v), c: low_byte(v), ..*old(self) }),
    {
        self.b = hi(v);
        self.c = lo(v);
    }

    /// Writes DE.
    pub fn set_de(&mut self, v: u16)
        ensures
            *final(self) == (Reg { d: high_byte(v), e: low_byte(v), ..*old(self) }),
    {
        self.d = hi(v);
        self.e = lo(v);
    }

    /// Writes HL.
    pub fn set_hl(&mut self, v: u16)
        ensures
            *final(self) == (Reg { h: high_byte(v), l: low_byte(v), ..*old(self) }),
    {
        self.h = hi(v);
        self.l = lo(v);
    }

    /// Tests one flag.
    pub fn flag(&self, flag: Flag) -> (r: bool)
        ensures
            r == self.flag_on(flag),
    {
        let m: u8 = mask(flag);
        self.f & m != 0
    }

    /// Sets or clears one flag and keeps the other three.
    pub fn set_flag(&mut self, flag: Flag, on: bool)
        ensures
            *final(self) == (Reg { f: with_flag(old(self).f, flag, on), ..*old(self) }),
    {
        let m: u8 = mask(flag);
        if on {
            self.f = self.f | m;
        } else {
            self.f = self.f & !m;
        }
    }

    /// Writes all four flags at once.
    pub fn set_flags(&mut self, z: bool, n: bool, h: bool, c: bool)
        ensures
            *final(self) == (Reg { f: flags_byte(z, n, h, c), ..*old(self) }),
            final(self).wf(),
    {
        proof {
            lemma_flags_byte(z, n, h, c);
        }
        let zb: u8 = if z {
            0x80
        } else {
            0
        };
        let nb: u8 = if n {
            0x40
        } else {
            0
        };
        let hb: u8 = if h {
            0x20
        } else {
            0
        };
        let cb: u8 = if c {
            0x10
        } else {
            0
        };
        self.f = zb | nb | hb | cb;
    }
}

/// The mask of one flag.
pub fn mask(flag: Flag) -> (m: u8)
    ensures
        m == flag_mask(flag),
{
    match flag {
        Flag::Z => 0x80,
        Flag::N => 0x40,
        Flag::H => 0x20,
        Flag::C => 0x10,
    }
}

} // verus!
