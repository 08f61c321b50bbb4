//! The divider and timer peripheral at 0xFF04..=0xFF07: two prescaler-driven
//! counters on the shared T-cycle clock. DIV advances every 256 cycles and
//! wraps silently; TIMA advances at the rate TAC selects, and on overflow
//! reloads from TMA and latches a pending timer interrupt.
use vstd::prelude::*;
use vstd::arithmetic::div_mod::{
    lemma_add_mod_noop_right, lemma_div_is_ordered, lemma_fundamental_div_mod,
    lemma_fundamental_div_mod_converse_div, lemma_fundamental_div_mod_converse_mod,
    lemma_mod_division_less_than_divisor, lemma_mod_self_0, lemma_small_mod,
};

verus! {

/// A counter that advances its visible 8-bit value once every `every`
/// T-cycles while enabled, and reports when the value wraps to zero.
#[derive(Debug, Clone, Copy, PartialEq, Eq)]
pub struct Counter {
    /// T-cycles accumulated since the value last advanced.
    pub count: u16,
    /// The visible 8-bit value.
    pub value: u8,
    /// The period, in T-cycles, between advances of the value.
    pub every: u16,
    /// A disabled counter ignores ticks entirely.
    pub enabled: bool,
}

/// One T-cycle of a counter: the new counter and whether its value
/// overflowed (wrapped from 0xFF to 0x00) on this tick.
pub open spec fn counter_tick(c: Counter) -> (Counter, bool) {
    if !c.enabled {
        (c, false)
    } else if c.count + 1 >= c.every {
        let nv = c.value.wrapping_add(1);
        (Counter { count: 0, value: nv, ..c }, nv == 0)
    } else {
        (Counter { count: (c.count + 1) as u16, ..c }, false)
    }
}

impl Counter {
    pub fn new(every: u16, enabled: bool) -> (r: Self)
        ensures
            r == (Counter { count: 0, value: 0, every, enabled }),
    {
        Counter { count: 0, value: 0, every, enabled }
    }

    /// Advances the counter by one tick and reports an overflow of its value.
    pub fn tick(&mut self) -> (overflowed: bool)
        ensures
            *final(self) == counter_tick(*old(self)).0,
            overflowed == counter_tick(*old(self)).1,
    {
        if !self.enabled {
            return false;
        }
        let next = self.count as u32 + 1;
        if next >= self.every as u32 {
            self.count = 0;
            self.value = self.value.wrapping_add(1);
            self.value == 0x00
        } else {
            self.count = next as u16;
            false
        }
    }
}

/// The timer peripheral: DIV, TIMA (whose rate and enable come from TAC),
/// the TMA reload value, and the pending-interrupt latch.
#[derive(Debug, Clone, Copy, PartialEq, Eq)]
pub struct Timer {
    /// Set when TIMA overflowed; the CPU drains it into IF after ticking.
    pub interrupt: bool,
    /// The always-running divider, one advance per 256 T-cycles.
    pub div: Counter,
    /// The timer counter; also carries the TAC enable and period.
    pub tima: Counter,
    /// The value TIMA reloads from on overflow.
    pub tma: u8,
}

/// One T-cycle of the whole timer: DIV always ticks; a TIMA overflow
/// reloads TIMA from TMA and sets the pending interrupt, within this
/// same tick.
pub open spec fn timer_tick(t: Timer) -> Timer {
    let d = counter_tick(t.div).0;
    let ti = counter_tick(t.tima).0;
    if counter_tick(t.tima).1 {
        Timer { div: d, tima: Counter { value: t.tma, ..ti }, interrupt: true, ..t }
    } else {
        Timer { div: d, tima: ti, ..t }
    }
}

/// `n` T-cycles of the timer, one at a time.
pub open spec fn timer_ticks(t: Timer, n: nat) -> Timer
    decreases n,
{
    if n == 0 {
        t
    } else {
        timer_tick(timer_ticks(t, (n - 1) as nat))
    }
}

/// The period TAC bits 1..0 select.
pub open spec fn tac_period(v: u8) -> u16 {
    if v & 0x03 == 0x01 {
        16
    } else if v & 0x03 == 0x02 {
        64
    } else if v & 0x03 == 0x03 {
        256
    } else {
        1024
    }
}

/// How TAC reads back: 0xF8 in the unused bits, the enable in bit 2, and
/// the select in bits 1..0.
pub open spec fn tac_value(t: Timer) -> u8 {
    (0xF8int + (if t.tima.enabled {
        4int
    } else {
        0int
    }) + (if t.tima.every == 16 {
        1int
    } else if t.tima.every == 64 {
        2int
    } else if t.tima.every == 256 {
        3int
    } else {
        0int
    })) as u8
}

impl Timer {
    pub fn new() -> (r: Self)
        ensures
            r == (Timer {
                interrupt: false,
                div: Counter { count: 0, value: 0, every: 256, enabled: true },
                tima: Counter { count: 0, value: 0, every: 1024, enabled: false },
                tma: 0,
            }),
    {
        Timer {
            interrupt: false,
            div: Counter::new(256, true),
            tima: Counter::new(1024, false),
            tma: 0,
        }
    }

    /// Advances the timer by one T-cycle.
    pub fn tick(&mut self)
        ensures
            *final(self) == timer_tick(*old(self)),
    {
        self.div.tick();
        if self.tima.tick() {
            self.tima.value = self.tma;
            self.interrupt = true;
        }
    }

    /// Advances the timer by `n` T-cycles.
    pub fn ticks(&mut self, n: usize)
        ensures
            *final(self) == timer_ticks(*old(self), n as nat),
    {
        let mut i: usize = 0;
        while i < n
            invariant
                i <= n,
                *self == timer_ticks(*old(self), i as nat),
            decreases n - i,
        {
            self.tick();
            i += 1;
        }
    }

    /// Decodes a write to TAC at 0xFF07: bit 2 enables TIMA and bits 1..0
    /// select its period.
    pub fn write_tac(&mut self, value: u8)
        ensures
            *final(self) == (Timer {
                tima: Counter {
                    enabled: value & 0x04u8 != 0,
                    every: tac_period(value),
                    ..old(self).tima
                },
                ..*old(self)
            }),
    {
        self.tima.enabled = value & 0x04 != 0;
        self.tima.every = if value & 0x03 == 0x01 {
            16
        } else if value & 0x03 == 0x02 {
            64
        } else if value & 0x03 == 0x03 {
            256
        } else {
            1024
        };
    }

    /// Reads TAC back at 0xFF07.
    pub fn read_tac(&self) -> (r: u8)
        ensures
            r == tac_value(*self),
    {
        let mut v: u8 = 0xF8;
        if self.tima.enabled {
            v = v + 4;
        }
        if self.tima.every == 16 {
            v + 1
        } else if self.tima.every == 64 {
            v + 2
        } else if self.tima.every == 256 {
            v + 3
        } else {
            v
        }
    }
}

/// DIV advances by one for every 256 T-cycles charged since its counter
/// was last cleared: after `n` ticks from a cleared prescaler the visible
/// value has advanced `n / 256` times (wrapping) and the prescaler holds
/// `n % 256`.
pub proof fn lemma_div_advance(t: Timer, n: nat)
    requires
        t.div.count == 0,
        t.div.every == 256,
        t.div.enabled,
    ensures
        timer_ticks(t, n).div.count == n % 256,
        timer_ticks(t, n).div.value == (t.div.value + n / 256) % 256,
        timer_ticks(t, n).div.every == 256,
        timer_ticks(t, n).div.enabled,
    decreases n,
{
    if n > 0 {
        lemma_div_advance(t, (n - 1) as nat);
        lemma_step_div_mod(n, 256);
        let p = timer_ticks(t, (n - 1) as nat);
        let a = t.div.value + (n - 1) as nat / 256;
        lemma_mod_division_less_than_divisor(a as int, 256);
        if p.div.count + 1 >= 256 {
            lemma_add_mod_noop_right(1, a as int, 256);
            if a % 256 == 255 {
                lemma_mod_self_0(256);
            } else {
                lemma_small_mod((a % 256 + 1) as nat, 256);
            }
        }
    }
}

/// How one more tick moves a quotient and remainder along: the remainder
/// advances until it reaches the divisor, at which point it clears and the
/// quotient advances.
proof fn lemma_step_div_mod(n: nat, m: nat)
    requires
        m >= 1,
        n >= 1,
    ensures
        (n - 1) % (m as int) + 1 < m ==> n % m == (n - 1) % (m as int) + 1 && n / m == (n - 1) as nat
            / m,
        (n - 1) % (m as int) + 1 == m ==> n % m == 0 && n / m == (n - 1) as nat / m + 1,
{
    let x = (n - 1) as int;
    let d = m as int;
    lemma_fundamental_div_mod(x, d);
    lemma_mod_division_less_than_divisor(x, d);
    let q = x / d;
    let r = x % d;
    assert(n as int == q * d + (r + 1));
    if r + 1 < d {
        lemma_fundamental_div_mod_converse_mod(n as int, d, q, r + 1);
        lemma_fundamental_div_mod_converse_div(n as int, d, q, r + 1);
    } else {
        assert((q + 1) * d == q * d + d) by (nonlinear_arith);
        assert(n as int == (q + 1) * d + 0);
        lemma_fundamental_div_mod_converse_mod(n as int, d, q + 1, 0);
        lemma_fundamental_div_mod_converse_div(n as int, d, q + 1, 0);
    }
}

/// While TIMA is enabled with period `e` and does not overflow, it advances
/// by one for every `e` T-cycles charged since its prescaler was cleared.
pub proof fn lemma_tima_advance(t: Timer, n: nat)
    requires
        t.tima.count == 0,
        t.tima.every >= 1,
        t.tima.enabled,
        t.tima.value + n / (t.tima.every as nat) <= 0xFF,
    ensures
        timer_ticks(t, n).tima.count == n % (t.tima.every as nat),
        timer_ticks(t, n).tima.value == t.tima.value + n / (t.tima.every as nat),
        timer_ticks(t, n).tima.every == t.tima.every,
        timer_ticks(t, n).tima.enabled,
        timer_ticks(t, n).interrupt == t.interrupt,
        timer_ticks(t, n).tma == t.tma,
    decreases n,
{
    if n > 0 {
        let e = t.tima.every as int;
        lemma_div_is_ordered((n - 1) as int, n as int, e);
        lemma_tima_advance(t, (n - 1) as nat);
        lemma_step_div_mod(n, t.tima.every as nat);
    }
}

/// A TIMA overflow reloads from TMA and raises the pending interrupt in
/// the very tick that overflows: with TIMA at 0xFF and a cleared
/// prescaler, charging one full period leaves TIMA at TMA with the
/// interrupt latched.
pub proof fn lemma_tima_overflow(t: Timer, n: nat)
    requires
        t.tima.count == 0,
        t.tima.every >= 1,
        t.tima.enabled,
        t.tima.value == 0xFF,
        n == t.tima.every,
    ensures
        timer_ticks(t, n).tima.value == t.tma,
        timer_ticks(t, n).tima.count == 0,
        timer_ticks(t, n).interrupt,
    decreases n,
{
    lemma_tima_stall(t, (n - 1) as nat);
}

/// Within one period of a cleared prescaler, TIMA's value sits still and
/// the prescaler just counts.
proof fn lemma_tima_stall(t: Timer, n: nat)
    requires
        t.tima.count == 0,
        t.tima.every >= 1,
        t.tima.enabled,
        n < t.tima.every,
    ensures
        timer_ticks(t, n).tima.count == n,
        timer_ticks(t, n).tima.value == t.tima.value,
        timer_ticks(t, n).tima.every == t.tima.every,
        timer_ticks(t, n).tima.enabled,
        timer_ticks(t, n).interrupt == t.interrupt,
        timer_ticks(t, n).tma == t.tma,
    decreases n,
{
    if n > 0 {
        lemma_tima_stall(t, (n - 1) as nat);
    }
}

} // verus!
