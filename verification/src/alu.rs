//! What the arithmetic and logic unit computes: for each operation the
//! result and the flag byte that it leaves, as functions of the operands.

use vstd::prelude::*;
use crate::register::{flag_in, flags_byte, lemma_flags_byte, Flag};

verus! {

/// The integer `x` reduced to eight bits.
pub open spec fn wrap8(x: int) -> u8 {
    (x % 256) as u8
}

/// The integer `x` reduced to sixteen bits.
pub open spec fn wrap16(x: int) -> u16 {
    (x % 65536) as u16
}

/// The byte `e` read as a signed displacement.
pub open spec fn signed(e: u8) -> int {
    if e < 128 {
        e as int
    } else {
        e - 256
    }
}

/// 1 for a set carry, 0 for a clear one.
pub open spec fn carry_in(carry: bool) -> int {
    if carry {
        1
    } else {
        0
    }
}

/// ADD and ADC: `a + b + carry`. H is the carry out of bit 3, C the carry
/// out of bit 7.
pub open spec fn add8(a: u8, b: u8, carry: bool) -> (u8, u8) {
    let c = carry_in(carry);
    let value = wrap8(a + b + c);
    (value, flags_byte(value == 0, false, a % 16 + b % 16 + c > 0xF, a + b + c > 0xFF))
}

/// SUB and SBC: `a - b - carry`. H is the borrow from bit 4, C the borrow
/// from bit 8.
pub open spec fn sub8(a: u8, b: u8, carry: bool) -> (u8, u8) {
    let c = carry_in(carry);
    let value = wrap8(a - b - c);
    (value, flags_byte(value == 0, true, a % 16 < b % 16 + c, a < b + c))
}

/// AND.
pub open spec fn and8(a: u8, b: u8) -> (u8, u8) {
    (a & b, flags_byte(a & b == 0, false, true, false))
}

/// XOR.
pub open spec fn xor8(a: u8, b: u8) -> (u8, u8) {
    (a ^ b, flags_byte(a ^ b == 0, false, false, false))
}

/// OR.
pub open spec fn or8(a: u8, b: u8) -> (u8, u8) {
    (a | b, flags_byte(a | b == 0, false, false, false))
}

/// CP: the flags of SUB; A is kept.
pub open spec fn cp8(a: u8, b: u8) -> (u8, u8) {
    (a, sub8(a, b, false).1)
}

/// INC: C is kept.
pub open spec fn inc8(x: u8, f: u8) -> (u8, u8) {
    let value = wrap8(x + 1);
    (value, flags_byte(value == 0, false, x % 16 + 1 > 0xF, flag_in(f, Flag::C)))
}

/// DEC: C is kept.
pub open spec fn dec8(x: u8, f: u8) -> (u8, u8) {
    let value = wrap8(x - 1);
    (value, flags_byte(value == 0, true, x % 16 == 0, flag_in(f, Flag::C)))
}

/// SWAP: the two nibbles change places.
pub open spec fn swap8(x: u8) -> (u8, u8) {
    ((x << 4u8) | (x >> 4u8), flags_byte(x == 0, false, false, false))
}

/// BIT: Z says that bit `n` of `x` is clear; C is kept.
pub open spec fn bit8(n: u8, x: u8, f: u8) -> u8 {
    flags_byte((x >> n) & 1 == 0, false, true, flag_in(f, Flag::C))
}

/// RES: `x` with bit `n` cleared.
pub open spec fn res8(n: u8, x: u8) -> u8 {
    x & !(1u8 << n)
}

/// SET: `x` with bit `n` set.
pub open spec fn set8(n: u8, x: u8) -> u8 {
    x | (1u8 << n)
}

/// The flags that a rotate or shift leaves: Z from the result, C the bit
/// that left.
pub open spec fn shifted(value: u8, out: bool) -> (u8, u8) {
    (value, flags_byte(value == 0, false, false, out))
}

/// RR: right through the carry.
pub open spec fn rr8(x: u8, carry: bool) -> (u8, u8) {
    shifted((x >> 1u8) | (if carry { 0x80u8 } else { 0u8 }), x & 1 == 1)
}

/// RRC: right, bit 0 to bit 7 and to the carry.
pub open spec fn rrc8(x: u8) -> (u8, u8) {
    shifted((x >> 1u8) | ((x & 1) << 7u8), x & 1 == 1)
}

/// RL: left through the carry.
pub open spec fn rl8(x: u8, carry: bool) -> (u8, u8) {
    shifted((x << 1u8) | (if carry { 1u8 } else { 0u8 }), x & 0x80 == 0x80)
}

/// RLC: left, bit 7 to bit 0 and to the carry.
pub open spec fn rlc8(x: u8) -> (u8, u8) {
    shifted((x << 1u8) | ((x & 0x80) >> 7u8), x & 0x80 == 0x80)
}

/// SRL: right, bit 7 cleared.
pub open spec fn srl8(x: u8) -> (u8, u8) {
    shifted(x >> 1u8, x & 1 == 1)
}

/// SLA: left, bit 0 cleared.
pub open spec fn sla8(x: u8) -> (u8, u8) {
    shifted(x << 1u8, x & 0x80 == 0x80)
}

/// SRA: right, bit 7 kept.
pub open spec fn sra8(x: u8) -> (u8, u8) {
    shifted((x & 0x80) | (x >> 1u8), x & 1 == 1)
}

/// ADD HL,rr: H is the carry out of bit 11, C the carry out of bit 15; Z is
/// kept.
pub open spec fn add16(hl: u16, b: u16, f: u8) -> (u16, u8) {
    (
        wrap16(hl + b),
        flags_byte(flag_in(f, Flag::Z), false, hl % 0x1000 + b % 0x1000 > 0xFFF, hl + b > 0xFFFF),
    )
}

/// ADD SP,e and LD HL,SP+e: the displacement is signed, but H and C are the
/// carries out of bit 3 and bit 7 of the unsigned sum of the low bytes.
pub open spec fn add_signed(a: u16, e: u8) -> (u16, u8) {
    (wrap16(a + signed(e)), flags_byte(false, false, a % 16 + e % 16 > 0xF, a % 256 + e > 0xFF))
}

/// DAA: corrects A to packed decimal after an addition (N clear) or a
/// subtraction (N set). N is kept, H is cleared, C is set by a correction
/// of the high digit after an addition and otherwise kept.
pub open spec fn daa(a: u8, f: u8) -> (u8, u8) {
    let n = flag_in(f, Flag::N);
    let h = flag_in(f, Flag::H);
    let c = flag_in(f, Flag::C);
    if !n {
        let high = c || a > 0x99;
        let a1 = if high { wrap8(a + 0x60) } else { a };
        let a2 = if h || a1 % 16 > 9 { wrap8(a1 + 0x06) } else { a1 };
        (a2, flags_byte(a2 == 0, false, false, high))
    } else {
        let a1 = if c { wrap8(a - 0x60) } else { a };
        let a2 = if h { wrap8(a1 - 0x06) } else { a1 };
        (a2, flags_byte(a2 == 0, true, false, c))
    }
}

/// CPL: A is inverted; N and H are set.
pub open spec fn cpl(a: u8, f: u8) -> (u8, u8) {
    (!a, flags_byte(flag_in(f, Flag::Z), true, true, flag_in(f, Flag::C)))
}

/// SCF: C is set; N and H are cleared.
pub open spec fn scf(f: u8) -> u8 {
    flags_byte(flag_in(f, Flag::Z), false, false, true)
}

/// CCF: C is inverted; N and H are cleared.
pub open spec fn ccf(f: u8) -> u8 {
    flags_byte(flag_in(f, Flag::Z), false, false, !flag_in(f, Flag::C))
}

/// The rotates of A outside the CB table clear Z whatever the result is.
pub open spec fn clear_z(r: (u8, u8)) -> (u8, u8) {
    (r.0, flags_byte(false, flag_in(r.1, Flag::N), flag_in(r.1, Flag::H), flag_in(r.1, Flag::C)))
}

/// Every operation that sets flags leaves the low nibble of the flag byte
/// clear.
pub proof fn lemma_flags_low_nibble(a: u8, b: u8, w: u16, v: u16, n: u8, f: u8, carry: bool)
    ensures
        add8(a, b, carry).1 & 0x0F == 0,
        sub8(a, b, carry).1 & 0x0F == 0,
        and8(a, b).1 & 0x0F == 0,
        xor8(a, b).1 & 0x0F == 0,
        or8(a, b).1 & 0x0F == 0,
        cp8(a, b).1 & 0x0F == 0,
        inc8(a, f).1 & 0x0F == 0,
        dec8(a, f).1 & 0x0F == 0,
        swap8(a).1 & 0x0F == 0,
        bit8(n, a, f) & 0x0F == 0,
        rr8(a, carry).1 & 0x0F == 0,
        rrc8(a).1 & 0x0F == 0,
        rl8(a, carry).1 & 0x0F == 0,
        rlc8(a).1 & 0x0F == 0,
        srl8(a).1 & 0x0F == 0,
        sla8(a).1 & 0x0F == 0,
        sra8(a).1 & 0x0F == 0,
        add16(w, v, f).1 & 0x0F == 0,
        add_signed(w, a).1 & 0x0F == 0,
        daa(a, f).1 & 0x0F == 0,
        cpl(a, f).1 & 0x0F == 0,
        scf(f) & 0x0F == 0,
        ccf(f) & 0x0F == 0,
        clear_z((a, f)).1 & 0x0F == 0,
{
    assert forall|z: bool, n: bool, h: bool, c: bool| #[trigger] flags_byte(z, n, h, c) & 0x0F == 0 by {
        lemma_flags_byte(z, n, h, c);
    }
}

/// INC and DEC undo each other, whatever the flags are.
pub proof fn lemma_inc_dec(x: u8, f: u8, g: u8)
    ensures
        dec8(inc8(x, f).0, g).0 == x,
        inc8(dec8(x, f).0, g).0 == x,
{
}

proof fn lemma_swap_bits(x: u8)
    by (bit_vector)
    ensures
        (((x << 4u8) | (x >> 4u8)) << 4u8) | (((x << 4u8) | (x >> 4u8)) >> 4u8) == x,
        ((x << 4u8) | (x >> 4u8)) == 0 <==> x == 0,
{
}

/// SWAP twice gives the byte back, and then Z says whether it is zero and
/// N, H and C are clear.
pub proof fn lemma_swap_twice(x: u8)
    ensures
        swap8(swap8(x).0).0 == x,
        swap8(swap8(x).0).1 == flags_byte(x == 0, false, false, false),
{
    lemma_swap_bits(x);
}

proof fn lemma_bit_ops(n: u8, m: u8, x: u8)
    by (bit_vector)
    requires
        n < 8,
        m < 8,
    ensures
        (x & !(1u8 << n)) | (1u8 << n) == x | (1u8 << n),
        (x | (1u8 << n)) & !(1u8 << n) == x & !(1u8 << n),
        ((x | (1u8 << n)) >> n) & 1 == 1,
        ((x & !(1u8 << n)) >> n) & 1 == 0,
        m != n ==> ((x | (1u8 << n)) >> m) & 1 == (x >> m) & 1,
        m != n ==> ((x & !(1u8 << n)) >> m) & 1 == (x >> m) & 1,
{
}

/// RES then SET of one bit leaves that bit set and every other bit as it
/// was; SET then RES leaves it clear and every other bit as it was.
pub proof fn lemma_res_set(n: u8, x: u8)
    requires
        n < 8,
    ensures
        set8(n, res8(n, x)) == set8(n, x),
        res8(n, set8(n, x)) == res8(n, x),
        (set8(n, res8(n, x)) >> n) & 1 == 1,
        (res8(n, set8(n, x)) >> n) & 1 == 0,
        forall|m: u8|
            m < 8 && m != n ==> (#[trigger] (set8(n, res8(n, x)) >> m)) & 1 == (x >> m) & 1,
        forall|m: u8|
            m < 8 && m != n ==> (#[trigger] (res8(n, set8(n, x)) >> m)) & 1 == (x >> m) & 1,
{
    lemma_bit_ops(n, n, x);
    assert forall|m: u8| m < 8 && m != n implies (#[trigger] (set8(n, res8(n, x)) >> m)) & 1 == (x
        >> m) & 1 by {
        lemma_bit_ops(n, m, x);
    }
    assert forall|m: u8| m < 8 && m != n implies (#[trigger] (res8(n, set8(n, x)) >> m)) & 1 == (x
        >> m) & 1 by {
        lemma_bit_ops(n, m, x);
    }
}

/// The low four bits of a byte as a remainder.
pub proof fn lemma_low_nibble(x: u8)
    by (bit_vector)
    ensures
        x & 0x0F == x % 16,
{
}

/// The low bits of a word as remainders.
pub proof fn lemma_low_bits(w: u16)
    by (bit_vector)
    ensures
        w & 0x0F == w % 16,
        w & 0xFF == w % 256,
        w & 0xFFF == w % 0x1000,
{
}

} // verus!
