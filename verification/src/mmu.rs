//! The memory-mapped bus: a flat 16-bit address space decoded by region to
//! the cartridge ROM, work RAM, high RAM, the serial and timer peripherals,
//! the interrupt registers, and stub regions for the peripherals this core
//! leaves out. Reads of stub and reserved regions return zero; writes into
//! cartridge space or reserved regions are accepted as no-ops and recorded
//! in a sticky diagnostic, so a host can still fail loudly on them.
use vstd::prelude::*;
use crate::cartridge::Cartridge;
use crate::num::{hi8, lo8, pair16};
use crate::serial::Serial;
use crate::timer::{tac_period, tac_value, Counter, Timer};

verus! {

/// A single memory-mapped byte, optionally read-only.
#[derive(Debug, Clone, Copy, PartialEq, Eq)]
pub struct Byte {
    pub value: u8,
    pub read_only: bool,
}

impl Byte {
    pub fn new(value: u8, read_only: bool) -> (r: Self)
        ensures
            r == (Byte { value, read_only }),
    {
        Byte { value, read_only }
    }

    pub fn read(&self) -> (r: u8)
        ensures
            r == self.value,
    {
        self.value
    }

    pub fn write(&mut self, value: u8)
        ensures
            *final(self) == (Byte {
                value: if old(self).read_only {
                    old(self).value
                } else {
                    value
                },
                ..*old(self)
            }),
    {
        if self.read_only {
            return ;
        }
        self.value = value;
    }
}

impl Default for Byte {
    fn default() -> (r: Self)
        ensures
            r == (Byte { value: 0, read_only: false }),
    {
        Byte { value: 0, read_only: false }
    }
}

/// A stub region: reads zero, swallows writes.
#[derive(Debug, Clone, Copy, PartialEq, Eq)]
pub struct Noop {
    /// When set, the stub stands for a region that must not be touched.
    pub panic: bool,
}

impl Noop {
    pub fn new(panic: bool) -> (r: Self)
        ensures
            r == (Noop { panic }),
    {
        Noop { panic }
    }

    pub fn read(&self) -> (r: u8)
        requires
            !self.panic,
        ensures
            r == 0,
    {
        0x00
    }

    pub fn write(&mut self, value: u8)
        requires
            !old(self).panic,
        ensures
            *final(self) == *old(self),
    {
        let _ = value;
    }
}

/// A byte-addressed RAM bank that answers for addresses at a fixed offset.
#[derive(Debug, PartialEq, Eq)]
pub struct Ram {
    pub memory: Vec<u8>,
    pub offset: u16,
}

impl Ram {
    /// A zeroed bank of `size` bytes answering from `offset` up.
    pub fn new(size: usize, offset: u16) -> (r: Self)
        ensures
            r.offset == offset,
            r.memory@.len() == size,
            forall|j: int| 0 <= j < size ==> r.memory@[j] == 0,
    {
        let mut memory: Vec<u8> = Vec::new();
        let mut i: usize = 0;
        while i < size
            invariant
                i <= size,
                memory@.len() == i,
                forall|j: int| 0 <= j < i ==> memory@[j] == 0,
            decreases size - i,
        {
            memory.push(0);
            i += 1;
        }
        Ram { memory, offset }
    }

    pub fn read(&self, address: u16) -> (r: u8)
        requires
            self.offset <= address,
            address - self.offset < self.memory@.len(),
        ensures
            r == self.memory@[address - self.offset],
    {
        self.memory[(address - self.offset) as usize]
    }

    pub fn write(&mut self, address: u16, value: u8)
        requires
            old(self).offset <= address,
            address - old(self).offset < old(self).memory@.len(),
        ensures
            final(self).offset == old(self).offset,
            final(self).memory@ == old(self).memory@.update(address - old(self).offset, value),
    {
        let i = (address - self.offset) as usize;
        self.memory.set(i, value);
    }
}

/// The bus as the specifications see it: the byte stores and peripheral
/// registers, the debug toggle, and the diagnostic for writes the decode
/// refuses.
#[verifier::ext_equal]
pub ghost struct MemV {
    pub rom: Seq<u8>,
    pub wram: Seq<u8>,
    pub hram: Seq<u8>,
    pub ie: u8,
    pub iflag: u8,
    pub sb: u8,
    pub sc: u8,
    pub tmr: Timer,
    pub debug: bool,
    pub fault: Option<u16>,
}

/// Addresses that belong to cartridge ROM or cartridge RAM space.
pub open spec fn cart_addr(a: u16) -> bool {
    a < 0x8000 || (0xA000 <= a && a < 0xC000)
}

/// Reserved or unmapped space: echo RAM, the unusable gap, and the I/O
/// ports nothing answers for. Touching these is a program error; the bus
/// records the address instead of stopping.
pub open spec fn reserved_addr(a: u16) -> bool {
    (0xE000 <= a && a < 0xFE00) || (0xFEA0 <= a && a < 0xFF00) || a == 0xFF03 || (0xFF08 <= a
        && a <= 0xFF0E) || a == 0xFF4C || a == 0xFF4E || (0xFF56 <= a && a <= 0xFF67) || (0xFF6A
        <= a && a <= 0xFF6F) || (0xFF71 <= a && a <= 0xFF7F)
}

/// What one bus read returns. In debug mode the LY register at 0xFF44 is
/// pinned to 0x90 so programs that busy-wait for the vertical blank line
/// make progress.
pub open spec fn mem_read8(m: MemV, a: u16) -> u8 {
    if m.debug && a == 0xFF44 {
        0x90
    } else if cart_addr(a) {
        if a < m.rom.len() {
            m.rom[a as int]
        } else {
            0
        }
    } else if 0xC000 <= a && a < 0xE000 {
        m.wram[a - 0xC000]
    } else if 0xFF80 <= a && a < 0xFFFF {
        m.hram[a - 0xFF80]
    } else if a == 0xFFFF {
        m.ie
    } else if a == 0xFF0F {
        m.iflag
    } else if a == 0xFF01 {
        m.sb
    } else if a == 0xFF02 {
        m.sc
    } else if a == 0xFF04 {
        m.tmr.div.value
    } else if a == 0xFF05 {
        m.tmr.tima.value
    } else if a == 0xFF06 {
        m.tmr.tma
    } else if a == 0xFF07 {
        tac_value(m.tmr)
    } else {
        0
    }
}

/// What one bus write leaves behind. A write into cartridge space is a
/// bank-control signal this core does not implement, and a write into
/// reserved space is a program error: both leave the store unchanged and
/// set the diagnostic. A write to DIV clears the divider outright, so its
/// next advance comes a full period later.
pub open spec fn mem_write8(m: MemV, a: u16, v: u8) -> MemV {
    if m.debug && a == 0xFF44 {
        m
    } else if cart_addr(a) {
        MemV { fault: Some(a), ..m }
    } else if 0xC000 <= a && a < 0xE000 {
        MemV { wram: m.wram.update(a - 0xC000, v), ..m }
    } else if 0xFF80 <= a && a < 0xFFFF {
        MemV { hram: m.hram.update(a - 0xFF80, v), ..m }
    } else if a == 0xFFFF {
        MemV { ie: v, ..m }
    } else if a == 0xFF0F {
        MemV { iflag: v, ..m }
    } else if a == 0xFF01 {
        MemV { sb: v, ..m }
    } else if a == 0xFF02 {
        MemV { sc: v, ..m }
    } else if a == 0xFF04 {
        MemV {
            tmr: Timer { div: Counter { count: 0, value: 0, ..m.tmr.div }, ..m.tmr },
            ..m
        }
    } else if a == 0xFF05 {
        MemV { tmr: Timer { tima: Counter { value: v, ..m.tmr.tima }, ..m.tmr }, ..m }
    } else if a == 0xFF06 {
        MemV { tmr: Timer { tma: v, ..m.tmr }, ..m }
    } else if a == 0xFF07 {
        MemV {
            tmr: Timer {
                tima: Counter {
                    enabled: v & 0x04u8 != 0,
                    every: tac_period(v),
                    ..m.tmr.tima
                },
                ..m.tmr
            },
            ..m
        }
    } else if reserved_addr(a) {
        MemV { fault: Some(a), ..m }
    } else {
        m
    }
}

/// A 16-bit read: low byte at `a`, high byte at `a + 1`, the second
/// address wrapping by 16-bit arithmetic.
pub open spec fn mem_read16(m: MemV, a: u16) -> u16 {
    pair16(mem_read8(m, a.wrapping_add(1)), mem_read8(m, a))
}

/// A 16-bit write: low byte at `a`, then high byte at `a + 1`.
pub open spec fn mem_write16(m: MemV, a: u16, v: u16) -> MemV {
    mem_write8(mem_write8(m, a, lo8(v)), a.wrapping_add(1), hi8(v))
}

/// The bus. It owns the cartridge, both RAM banks, the serial and timer
/// peripherals, and the interrupt enable and flag bytes; the CPU holds it
/// exclusively.
pub struct Mapper {
    pub cartridge: Cartridge,
    pub ienable: Byte,
    pub iflag: Byte,
    pub noop: Noop,
    pub serial: Serial,
    pub wram: Ram,
    pub hram: Ram,
    pub timer: Timer,
    /// The debug toggle: pins LY and lets the host drain serial output.
    pub debug: bool,
    /// The pinned LY byte served at 0xFF44 in debug mode.
    pub lcd_line: Byte,
    /// The last refused write, if any: a bank-control write into cartridge
    /// space or a write into reserved space.
    pub fault: Option<u16>,
}

impl Mapper {
    /// The structural facts the bus relies on: the RAM banks sit at their
    /// offsets with their fixed sizes, and the LY pin holds its constant.
    pub open spec fn wf(self) -> bool {
        &&& self.wram.offset == 0xC000
        &&& self.wram.memory@.len() == 0x2000
        &&& self.hram.offset == 0xFF80
        &&& self.hram.memory@.len() == 0x80
        &&& !self.noop.panic
        &&& !self.ienable.read_only
        &&& !self.iflag.read_only
        &&& self.lcd_line == (Byte { value: 0x90, read_only: true })
    }

    /// The bus as the specifications see it.
    pub open spec fn mv(self) -> MemV {
        MemV {
            rom: self.cartridge.rom@,
            wram: self.wram.memory@,
            hram: self.hram.memory@,
            ie: self.ienable.value,
            iflag: self.iflag.value,
            sb: self.serial.transfer,
            sc: self.serial.control,
            tmr: self.timer,
            debug: self.debug,
            fault: self.fault,
        }
    }

    pub fn new(cartridge: Cartridge) -> (r: Self)
        ensures
            r.wf(),
            r.mv() == (MemV {
                rom: cartridge.rom@,
                wram: Seq::new(0x2000, |j: int| 0u8),
                hram: Seq::new(0x80, |j: int| 0u8),
                ie: 0,
                iflag: 0,
                sb: 0,
                sc: 0,
                tmr: Timer {
                    interrupt: false,
                    div: Counter { count: 0, value: 0, every: 256, enabled: true },
                    tima: Counter { count: 0, value: 0, every: 1024, enabled: false },
                    tma: 0,
                },
                debug: false,
                fault: None,
            }),
    {
        let r = Mapper {
            cartridge,
            ienable: Byte::default(),
            iflag: Byte::default(),
            noop: Noop::new(false),
            serial: Serial::default(),
            wram: Ram::new(0x2000, 0xC000),
            hram: Ram::new(0x80, 0xFF80),
            timer: Timer::new(),
            debug: false,
            lcd_line: Byte::new(0x90, true),
            fault: None,
        };
        proof {
            assert(r.mv().wram =~= Seq::new(0x2000, |j: int| 0u8));
            assert(r.mv().hram =~= Seq::new(0x80, |j: int| 0u8));
        }
        r
    }

    /// Reads one byte through the address decode.
    pub fn read8(&self, address: u16) -> (r: u8)
        requires
            self.wf(),
        ensures
            r == mem_read8(self.mv(), address),
    {
        if self.debug && address == 0xFF44 {
            self.lcd_line.read()
        } else if address < 0x8000 || (0xA000 <= address && address < 0xC000) {
            if (address as usize) < self.cartridge.rom.len() {
                self.cartridge.read(address)
            } else {
                0
            }
        } else if 0xC000 <= address && address < 0xE000 {
            self.wram.read(address)
        } else if 0xFF80 <= address && address < 0xFFFF {
            self.hram.read(address)
        } else if address == 0xFFFF {
            self.ienable.read()
        } else if address == 0xFF0F {
            self.iflag.read()
        } else if address == 0xFF01 {
            self.serial.transfer
        } else if address == 0xFF02 {
            self.serial.control
        } else if address == 0xFF04 {
            self.timer.div.value
        } else if address == 0xFF05 {
            self.timer.tima.value
        } else if address == 0xFF06 {
            self.timer.tma
        } else if address == 0xFF07 {
            self.timer.read_tac()
        } else {
            0
        }
    }

    /// Writes one byte through the address decode.
    pub fn write8(&mut self, address: u16, value: u8)
        requires
            old(self).wf(),
        ensures
            final(self).wf(),
            final(self).mv() == mem_write8(old(self).mv(), address, value),
    {
        if self.debug && address == 0xFF44 {
            proof {
                assert(self.mv() =~= mem_write8(old(self).mv(), address, value));
            }
        } else if address < 0x8000 || (0xA000 <= address && address < 0xC000) {
            self.fault = Some(address);
            proof {
                assert(self.mv() =~= mem_write8(old(self).mv(), address, value));
            }
        } else if 0xC000 <= address && address < 0xE000 {
            self.wram.write(address, value);
            proof {
                assert(self.mv() =~= mem_write8(old(self).mv(), address, value));
            }
        } else if 0xFF80 <= address && address < 0xFFFF {
            self.hram.write(address, value);
            proof {
                assert(self.mv() =~= mem_write8(old(self).mv(), address, value));
            }
        } else if address == 0xFFFF {
            self.ienable.write(value);
            proof {
                assert(self.mv() =~= mem_write8(old(self).mv(), address, value));
            }
        } else if address == 0xFF0F {
            self.iflag.write(value);
            proof {
                assert(self.mv() =~= mem_write8(old(self).mv(), address, value));
            }
        } else if address == 0xFF01 {
            self.serial.transfer = value;
            proof {
                assert(self.mv() =~= mem_write8(old(self).mv(), address, value));
            }
        } else if address == 0xFF02 {
            self.serial.control = value;
            proof {
                assert(self.mv() =~= mem_write8(old(self).mv(), address, value));
            }
        } else if address == 0xFF04 {
            self.timer.div.count = 0;
            self.timer.div.value = 0;
            proof {
                assert(self.mv() =~= mem_write8(old(self).mv(), address, value));
            }
        } else if address == 0xFF05 {
            self.timer.tima.value = value;
            proof {
                assert(self.mv() =~= mem_write8(old(self).mv(), address, value));
            }
        } else if address == 0xFF06 {
            self.timer.tma = value;
            proof {
                assert(self.mv() =~= mem_write8(old(self).mv(), address, value));
            }
        } else if address == 0xFF07 {
            self.timer.write_tac(value);
            proof {
                assert(self.mv() =~= mem_write8(old(self).mv(), address, value));
            }
        } else if (0xE000 <= address && address < 0xFE00) || (0xFEA0 <= address && address
            < 0xFF00) || address == 0xFF03 || (0xFF08 <= address && address <= 0xFF0E) || address
            == 0xFF4C || address == 0xFF4E || (0xFF56 <= address && address <= 0xFF67) || (0xFF6A
            <= address && address <= 0xFF6F) || (0xFF71 <= address && address <= 0xFF7F) {
            self.fault = Some(address);
            proof {
                assert(self.mv() =~= mem_write8(old(self).mv(), address, value));
            }
        } else {
            proof {
                assert(self.mv() =~= mem_write8(old(self).mv(), address, value));
            }
        }
    }

    /// Reads a 16-bit value little-endian: low byte at `address`, high
    /// byte at `address + 1` with 16-bit wraparound.
    pub fn read16(&self, address: u16) -> (r: u16)
        requires
            self.wf(),
        ensures
            r == mem_read16(self.mv(), address),
    {
        let low = self.read8(address);
        let high = self.read8(address.wrapping_add(1));
        crate::num::join16(high, low)
    }

    /// Writes a 16-bit value little-endian: low byte at `address`, high
    /// byte at `address + 1` with 16-bit wraparound.
    pub fn write16(&mut self, address: u16, value: u16)
        requires
            old(self).wf(),
        ensures
            final(self).wf(),
            final(self).mv() == mem_write16(old(self).mv(), address, value),
    {
        let (high, low) = crate::num::split16(value);
        self.write8(address, low);
        self.write8(address.wrapping_add(1), high);
    }

    /// Drains one byte of serial output: in debug mode, a control byte of
    /// 0x81 means a transfer was started with the internal clock, and the
    /// host should take the data byte and see the control byte cleared.
    pub fn debug_serial(&mut self) -> (r: Option<u8>)
        ensures
            (if old(self).debug && old(self).sc_is_started() {
                *final(self) == (Mapper {
                    serial: Serial { control: 0, ..old(self).serial },
                    ..*old(self)
                }) && r == Some(old(self).serial.transfer)
            } else {
                *final(self) == *old(self) && r is None
            }),
    {
        if !self.debug {
            return None;
        }
        if self.serial.control == 0x81 {
            self.serial.control = 0x00;
            Some(self.serial.transfer)
        } else {
            None
        }
    }

    /// Whether the serial control byte announces a started transfer.
    pub open spec fn sc_is_started(self) -> bool {
        self.serial.control == 0x81
    }
}

} // verus!
