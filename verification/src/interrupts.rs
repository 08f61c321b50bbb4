//! The interrupt controller: the IME master-enable latch, the one-instruction
//! delays of EI and DI, and priority arbitration over the five interrupt
//! sources shared by the IE and IF registers.
use vstd::prelude::*;
use crate::Error;

verus! {

pub const VBLANK: u8 = 0x01;

pub const LCD_STAT: u8 = 0x02;

pub const TIMER: u8 = 0x04;

pub const SERIAL: u8 = 0x08;

pub const JOYPAD: u8 = 0x10;

/// One position of the two-step pipeline that delays an EI or DI commit.
#[derive(Debug, Clone, Copy, PartialEq, Eq)]
pub enum StateChange {
    Delayed,
    Setting,
}

/// IME plus the two pending EI/DI pipelines.
#[derive(Debug, Clone, Copy, PartialEq, Eq)]
pub struct Interrupts {
    /// The master enable: while false, no interrupt is serviced.
    pub ime: bool,
    /// A pending enable, committed one `update` after it reaches `Setting`.
    pub ei: Option<StateChange>,
    /// A pending disable, committed the same way.
    pub di: Option<StateChange>,
}

impl Default for Interrupts {
    fn default() -> (r: Self)
        ensures
            r == (Interrupts { ime: false, ei: None, di: None }),
    {
        Interrupts { ime: false, ei: None, di: None }
    }
}

/// One `update` step: each pending pipeline advances a position, and a
/// pipeline in `Setting` commits its value to IME and drains. When both
/// commit at once the disable wins.
pub open spec fn ints_update(i: Interrupts) -> Interrupts {
    let ei2 = match i.ei {
        Some(StateChange::Delayed) => Some(StateChange::Setting),
        _ => None,
    };
    let ime_e = if i.ei == Some(StateChange::Setting) {
        true
    } else {
        i.ime
    };
    let di2 = match i.di {
        Some(StateChange::Delayed) => Some(StateChange::Setting),
        _ => None,
    };
    let ime_d = if i.di == Some(StateChange::Setting) {
        false
    } else {
        ime_e
    };
    Interrupts { ime: ime_d, ei: ei2, di: di2 }
}

/// The highest-priority interrupt that is both enabled and requested, in
/// the order VBLANK, LCD_STAT, TIMER, SERIAL, JOYPAD; `None` while the CPU
/// is running normally with IME off.
pub open spec fn requested_spec(i: Interrupts, halted: bool, ienable: u8, iflag: u8) -> Option<
    u8,
> {
    if !i.ime && !halted {
        None
    } else if ienable & VBLANK != 0 && iflag & VBLANK != 0 {
        Some(VBLANK)
    } else if ienable & LCD_STAT != 0 && iflag & LCD_STAT != 0 {
        Some(LCD_STAT)
    } else if ienable & TIMER != 0 && iflag & TIMER != 0 {
        Some(TIMER)
    } else if ienable & SERIAL != 0 && iflag & SERIAL != 0 {
        Some(SERIAL)
    } else if ienable & JOYPAD != 0 && iflag & JOYPAD != 0 {
        Some(JOYPAD)
    } else {
        None
    }
}

/// Whether a mask names exactly one of the five defined interrupt sources.
pub open spec fn valid_interrupt(mask: u8) -> bool {
    mask == VBLANK || mask == LCD_STAT || mask == TIMER || mask == SERIAL || mask == JOYPAD
}

/// The handler vector each interrupt source jumps to.
pub open spec fn handler_address_spec(mask: u8) -> u16 {
    if mask == VBLANK {
        0x0040
    } else if mask == LCD_STAT {
        0x0048
    } else if mask == TIMER {
        0x0050
    } else if mask == SERIAL {
        0x0058
    } else {
        0x0060
    }
}

impl Interrupts {
    /// Requests that IME become true. The EI instruction passes
    /// `immediate == false`, which delays the commit by one instruction;
    /// only RETI passes `immediate == true`.
    pub fn enable(&mut self, immediate: bool)
        ensures
            *final(self) == (Interrupts {
                ei: Some(
                    if immediate {
                        StateChange::Setting
                    } else {
                        StateChange::Delayed
                    },
                ),
                ..*old(self)
            }),
    {
        self.ei = if immediate {
            Some(StateChange::Setting)
        } else {
            Some(StateChange::Delayed)
        };
    }

    /// Requests that IME become false, delayed one instruction.
    pub fn disable(&mut self)
        ensures
            *final(self) == (Interrupts { di: Some(StateChange::Delayed), ..*old(self) }),
    {
        self.di = Some(StateChange::Delayed);
    }

    /// Advances the pending EI/DI pipelines one position; called exactly
    /// once at the start of every step.
    pub fn update(&mut self)
        ensures
            *final(self) == ints_update(*old(self)),
    {
        self.ei = match self.ei {
            Some(StateChange::Delayed) => Some(StateChange::Setting),
            Some(StateChange::Setting) => {
                self.ime = true;
                None
            },
            _ => None,
        };
        self.di = match self.di {
            Some(StateChange::Delayed) => Some(StateChange::Setting),
            Some(StateChange::Setting) => {
                self.ime = false;
                None
            },
            _ => None,
        };
    }

    /// Picks the interrupt to consider this step, if any: the
    /// highest-priority bit set in both IE and IF, unless the CPU is
    /// running normally with IME off.
    pub fn requested(&self, halted: bool, ienable: u8, iflag: u8) -> (r: Option<u8>)
        ensures
            r == requested_spec(*self, halted, ienable, iflag),
            (match r {
                Some(mask) => valid_interrupt(mask),
                None => true,
            }),
    {
        if !self.ime && !halted {
            return None;
        }
        if ienable & VBLANK != 0 && iflag & VBLANK != 0 {
            Some(VBLANK)
        } else if ienable & LCD_STAT != 0 && iflag & LCD_STAT != 0 {
            Some(LCD_STAT)
        } else if ienable & TIMER != 0 && iflag & TIMER != 0 {
            Some(TIMER)
        } else if ienable & SERIAL != 0 && iflag & SERIAL != 0 {
            Some(SERIAL)
        } else if ienable & JOYPAD != 0 && iflag & JOYPAD != 0 {
            Some(JOYPAD)
        } else {
            None
        }
    }
}

/// Maps an interrupt mask to its handler vector; any mask outside the five
/// defined sources is an internal invariant breach.
pub fn handler_address(interrupt: u8) -> (r: Result<u16, Error>)
    ensures
        valid_interrupt(interrupt) ==> r == Ok::<u16, Error>(handler_address_spec(interrupt)),
        !valid_interrupt(interrupt) ==> r == Err::<u16, Error>(Error::InvalidInterrupt(interrupt)),
{
    if interrupt == VBLANK {
        Ok(0x0040)
    } else if interrupt == LCD_STAT {
        Ok(0x0048)
    } else if interrupt == TIMER {
        Ok(0x0050)
    } else if interrupt == SERIAL {
        Ok(0x0058)
    } else if interrupt == JOYPAD {
        Ok(0x0060)
    } else {
        Err(Error::InvalidInterrupt(interrupt))
    }
}

/// EI latency: after an EI, the next `update` leaves IME as it was, and
/// only the `update` after that commits IME to true. So the instruction
/// immediately after EI still runs with the old IME.
pub proof fn lemma_ei_latency(i: Interrupts)
    requires
        i.di is None,
    ensures
        ints_update(Interrupts { ei: Some(StateChange::Delayed), ..i }).ime == i.ime,
        ints_update(ints_update(Interrupts { ei: Some(StateChange::Delayed), ..i })).ime,
{
}

/// DI latency: the commit of IME to false is delayed the same way.
pub proof fn lemma_di_latency(i: Interrupts)
    requires
        i.ei is None,
    ensures
        ints_update(Interrupts { di: Some(StateChange::Delayed), ..i }).ime == i.ime,
        !ints_update(ints_update(Interrupts { di: Some(StateChange::Delayed), ..i })).ime,
{
}

/// RETI commits at the very next `update`: the instruction at the popped
/// return address already runs with IME true.
pub proof fn lemma_reti_immediate(i: Interrupts)
    requires
        i.di is None,
    ensures
        ints_update(Interrupts { ei: Some(StateChange::Setting), ..i }).ime,
{
}

} // verus!
