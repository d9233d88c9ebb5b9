//! The interval timer: DIV counts every 64 machine cycles, TIMA at the rate
//! that TAC selects, reloading from TMA when it overflows.

use vstd::prelude::*;
use vstd::arithmetic::div_mod::lemma_fundamental_div_mod_converse;

verus! {

/// Machine cycles between two increments of DIV.
pub const DIV_PERIOD: u64 = 64;

/// The timer's registers and its two cycle accumulators.
#[derive(Clone, Copy, Debug)]
pub struct Timer {
    pub div: u8,
    pub tima: u8,
    pub tma: u8,
    pub tac: u8,
    /// Machine cycles counted toward the next increment of DIV.
    pub running_div: u32,
    /// Machine cycles counted toward the next increment of TIMA.
    pub running_counter: u32,
}

/// TIMA and whether it has overflowed, after `n` increments from `tima`. An
/// increment of 0xFF overflows: TIMA is loaded from `tma`.
pub open spec fn tima_ticks(tima: u8, tma: u8, n: nat) -> (u8, bool)
    decreases n,
{
    if n == 0 {
        (tima, false)
    } else {
        let (t, overflowed) = tima_ticks(tima, tma, (n - 1) as nat);
        if t == 0xFF {
            (tma, true)
        } else {
            ((t + 1) as u8, overflowed)
        }
    }
}

/// Up to 0xFF TIMA simply counts. The increment that takes it past 0xFF
/// loads TMA, and from then on TIMA has overflowed.
pub proof fn lemma_tima_ticks(tima: u8, tma: u8, n: nat)
    ensures
        tima + n <= 0xFF ==> tima_ticks(tima, tma, n) == ((tima + n) as u8, false),
        tima + n == 0x100 ==> tima_ticks(tima, tma, n) == (tma, true),
        tima + n >= 0x100 ==> tima_ticks(tima, tma, n).1,
    decreases n,
{
    if n > 0 {
        lemma_tima_ticks(tima, tma, (n - 1) as nat);
    }
}

impl Timer {
    /// TAC bit 2: TIMA counts.
    pub open spec fn enabled_spec(&self) -> bool {
        self.tac & 0b100 > 0
    }

    /// The machine cycles between two increments of TIMA, which TAC bits 0
    /// and 1 select.
    pub open spec fn step_spec(&self) -> u32 {
        let sel = self.tac & 0b11;
        if sel == 0 {
            256
        } else if sel == 1 {
            4
        } else if sel == 2 {
            16
        } else {
            64
        }
    }

    /// The number of increments of DIV that `d` more machine cycles bring.
    pub open spec fn div_ticks(&self, d: u32) -> int {
        (self.running_div + d) / 64
    }

    /// The number of increments of TIMA that `d` more machine cycles bring
    /// while TIMA counts.
    pub open spec fn tima_count(&self, d: u32) -> int {
        (self.running_counter + d) / (self.step_spec() as int)
    }

    /// Whether TIMA overflows within `d` more machine cycles.
    pub open spec fn overflows(&self, d: u32) -> bool {
        self.enabled_spec() && tima_ticks(self.tima, self.tma, self.tima_count(d) as nat).1
    }

    /// The timer `d` machine cycles later. DIV has gone up once for every
    /// full 64 cycles, wrapping at 256, and its accumulator keeps the rest.
    /// TIMA and its accumulator move the same way at TIMA's own step, but
    /// only while TAC bit 2 is set.
    pub open spec fn advance_spec(&self, d: u32) -> Timer {
        let div = ((self.div + self.div_ticks(d)) % 256) as u8;
        let running_div = ((self.running_div + d) % 64) as u32;
        if self.enabled_spec() {
            Timer {
                div,
                running_div,
                tima: tima_ticks(self.tima, self.tma, self.tima_count(d) as nat).0,
                running_counter: ((self.running_counter + d) % (self.step_spec() as int)) as u32,
                ..*self
            }
        } else {
            Timer { div, running_div, ..*self }
        }
    }

    /// The timer after reset: DIV 0xAB, TAC 0xF8, everything else 0.
    pub fn new() -> (r: Self)
        ensures
            r == (Timer { div: 0xAB, tima: 0, tma: 0, tac: 0xF8, running_div: 0, running_counter: 0 }),
    {
        Timer { div: 0xAB, tima: 0, tma: 0, tac: 0xF8, running_div: 0, running_counter: 0 }
    }

    /// Whether TIMA counts.
    pub fn enabled(&self) -> (r: bool)
        ensures
            r == self.enabled_spec(),
    {
        self.tac & 0b100 > 0
    }

    /// The machine cycles between two increments of TIMA.
    pub fn step_size(&self) -> (r: u32)
        ensures
            r == self.step_spec(),
            r == 256 || r == 4 || r == 16 || r == 64,
    {
        let sel: u8 = self.tac & 0b11;
        if sel == 0 {
            256
        } else if sel == 1 {
            4
        } else if sel == 2 {
            16
        } else {
            64
        }
    }

    /// Lets `d` machine cycles pass and says whether TIMA overflowed.
    pub fn advance(&mut self, d: u32) -> (overflowed: bool)
        ensures
            *final(self) == old(self).advance_spec(d),
            overflowed == old(self).overflows(d),
    {
        let ghost total_div: int = self.running_div + d;
        let ghost div0: u8 = self.div;
        let ghost ticks: int = 0;
        let mut acc: u64 = self.running_div as u64 + d as u64;
        while acc >= DIV_PERIOD
            invariant
                0 <= ticks,
                total_div == ticks * 64 + acc,
                self.div == (div0 + ticks) % 256,
                *self == (Timer { div: self.div, ..*old(self) }),
            decreases acc,
        {
            self.div = self.div.wrapping_add(1);
            acc = acc - DIV_PERIOD;
            proof {
                ticks = ticks + 1;
            }
        }
        proof {
            lemma_fundamental_div_mod_converse(total_div, 64, ticks, acc as int);
        }
        self.running_div = acc as u32;

        let mut overflowed = false;
        if self.enabled() {
            let step: u64 = self.step_size() as u64;
            let ghost total: int = self.running_counter + d;
            let ghost tima0: u8 = self.tima;
            let ghost n: nat = 0;
            let mut acc: u64 = self.running_counter as u64 + d as u64;
            while acc >= step
                invariant
                    step == 256 || step == 4 || step == 16 || step == 64,
                    total == n * step + acc,
                    (self.tima, overflowed) == tima_ticks(tima0, self.tma, n),
                    self.tma == old(self).tma,
                    self.tac == old(self).tac,
                    self.div == ((old(self).div + old(self).div_ticks(d)) % 256) as u8,
                    self.running_div == ((old(self).running_div + d) % 64) as u32,
                    self.running_counter == old(self).running_counter,
                decreases acc,
            {
                self.tima = self.tima.wrapping_add(1);
                if self.tima == 0 {
                    self.tima = self.tma;
                    overflowed = true;
                }
                acc = acc - step;
                proof {
                    assert((n + 1) * step == n * step + step) by (nonlinear_arith);
                    n = n + 1;
                }
            }
            proof {
                lemma_fundamental_div_mod_converse(total, step as int, n as int, acc as int);
            }
            self.running_counter = acc as u32;
        }
        overflowed
    }
}

} // verus!
