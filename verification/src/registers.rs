//! The CPU register file: eight 8-bit registers plus the 16-bit PC and SP,
//! with paired 16-bit accessors and the four condition flags held in the
//! upper nibble of F.
use vstd::prelude::*;
use crate::cartridge::Cartridge;
use crate::cpu::Model;
use crate::num::{hi8, lo8, pair16};

verus! {

/// The four condition flags, stored in the upper nibble of register F.
#[derive(Debug, Clone, Copy, PartialEq, Eq)]
pub enum Flags {
    /// Bit 7: set when the result of an operation is zero.
    Z,
    /// Bit 6: set when the last operation was a subtraction.
    N,
    /// Bit 5: set when the last operation carried from bit 3 into bit 4.
    H,
    /// Bit 4: set when the last operation carried out of bit 7 (or bit 15).
    C,
}

pub open spec fn flag_mask(fl: Flags) -> u8 {
    match fl {
        Flags::Z => 0x80u8,
        Flags::N => 0x40u8,
        Flags::H => 0x20u8,
        Flags::C => 0x10u8,
    }
}

impl Flags {
    pub fn mask(self) -> (r: u8)
        ensures
            r == flag_mask(self),
    {
        match self {
            Flags::Z => 0x80,
            Flags::N => 0x40,
            Flags::H => 0x20,
            Flags::C => 0x10,
        }
    }
}

/// Whether the given flag bit is set in an F value.
pub open spec fn get_flag(f: u8, fl: Flags) -> bool {
    f & flag_mask(fl) != 0
}

/// F after one flag bit is set or cleared.
pub open spec fn set_flag_spec(f: u8, fl: Flags, v: bool) -> u8 {
    if v {
        f | flag_mask(fl)
    } else {
        f & !flag_mask(fl)
    }
}

/// An F value built from the four flags; the low nibble is zero.
pub open spec fn mk_flags(z: bool, n: bool, h: bool, c: bool) -> u8 {
    ((if z {
        0x80int
    } else {
        0int
    }) + (if n {
        0x40int
    } else {
        0int
    }) + (if h {
        0x20int
    } else {
        0int
    }) + (if c {
        0x10int
    } else {
        0int
    })) as u8
}

/// The invariant on F: its low nibble always reads back as zero.
pub open spec fn flags_clean(f: u8) -> bool {
    f & 0x0F == 0
}

/// How each flag bit reads out of an F value built by `mk_flags`,
/// and that such a value keeps the low nibble clear.
pub proof fn lemma_mk_flags(z: bool, n: bool, h: bool, c: bool)
    by (bit_vector)
    ensures
        (mk_flags(z, n, h, c) & 0x80u8 != 0) == z,
        (mk_flags(z, n, h, c) & 0x40u8 != 0) == n,
        (mk_flags(z, n, h, c) & 0x20u8 != 0) == h,
        (mk_flags(z, n, h, c) & 0x10u8 != 0) == c,
        mk_flags(z, n, h, c) & 0x0Fu8 == 0,
{
}

/// Setting one flag bit reads back as written, leaves the other three
/// bits alone, and keeps the low nibble clear.
pub proof fn lemma_set_flag_bits(f: u8, m: u8, m2: u8, v: bool)
    by (bit_vector)
    requires
        m == 0x80 || m == 0x40 || m == 0x20 || m == 0x10,
        m2 == 0x80 || m2 == 0x40 || m2 == 0x20 || m2 == 0x10,
    ensures
        ((if v {
            f | m
        } else {
            f & !m
        }) & m != 0) == v,
        m2 != m ==> (if v {
            f | m
        } else {
            f & !m
        }) & m2 == f & m2,
        f & 0x0Fu8 == 0 ==> (if v {
            f | m
        } else {
            f & !m
        }) & 0x0Fu8 == 0,
{
}

/// A write through `set_flag` never dirties the low nibble of F.
pub proof fn lemma_flag_write_keeps_low_nibble_clear(f: u8, fl: Flags, v: bool)
    requires
        flags_clean(f),
    ensures
        flags_clean(set_flag_spec(f, fl, v)),
        get_flag(set_flag_spec(f, fl, v), fl) == v,
{
    lemma_set_flag_bits(f, flag_mask(fl), flag_mask(fl), v);
}

/// Every F value the instruction set installs keeps the low nibble clear:
/// a flag byte built from the four flags, the complement adjustment of an
/// already-clean byte, and the masked byte an AF write installs.
pub proof fn lemma_flag_sources_clean(z: bool, n: bool, h: bool, c: bool, f: u8, v: u16)
    ensures
        flags_clean(mk_flags(z, n, h, c)),
        flags_clean(f) ==> flags_clean(f | 0x60),
        flags_clean((crate::num::lo8(v) & 0xF0u8)),
{
    lemma_mk_flags(z, n, h, c);
    assert(f & 0x0Fu8 == 0 ==> (f | 0x60u8) & 0x0Fu8 == 0) by (bit_vector);
    assert(((v % 256) as u8 & 0xF0u8) & 0x0Fu8 == 0) by (bit_vector);
}

/// The register file. The pairs AF, BC, DE and HL read and write as
/// big-endian 16-bit values: the first-named register is the high byte.
#[derive(Debug, Clone, Copy, PartialEq, Eq)]
pub struct Registers {
    pub a: u8,
    pub f: u8,
    pub b: u8,
    pub c: u8,
    pub d: u8,
    pub e: u8,
    pub h: u8,
    pub l: u8,
    pub pc: u16,
    pub sp: u16,
}

/// The power-on register file for the DMG and MGB models: the carry and
/// half-carry flags start set exactly when the header checksum byte of the
/// cartridge is non-zero.
pub open spec fn initial_registers(checksum: u8) -> Registers {
    Registers {
        a: 0x01,
        f: if checksum != 0 {
            0xB0
        } else {
            0x80
        },
        b: 0x00,
        c: 0x13,
        d: 0x00,
        e: 0xD8,
        h: 0x01,
        l: 0x4D,
        pc: 0x0100,
        sp: 0xFFFE,
    }
}

impl Registers {
    pub fn new(model: Model, cartridge: &Cartridge) -> (r: Registers)
        requires
            cartridge.rom@.len() > 0x14D,
        ensures
            r == initial_registers(cartridge.rom@[0x14D]),
    {
        let f: u8 = match model {
            Model::DMG | Model::MGB => if cartridge.header_checksum() != 0x00 {
                0xB0
            } else {
                0x80
            },
        };
        Registers {
            a: 0x01,
            f,
            b: 0x00,
            c: 0x13,
            d: 0x00,
            e: 0xD8,
            h: 0x01,
            l: 0x4D,
            pc: 0x0100,
            sp: 0xFFFE,
        }
    }

    pub fn af(&self) -> (r: u16)
        ensures
            r == pair16(self.a, self.f),
    {
        (self.a as u16) * 256 + (self.f as u16)
    }

    /// Writes the AF pair; the low nibble of F is masked off, so the pair
    /// reads back as `value & 0xFFF0`.
    pub fn set_af(&mut self, value: u16)
        ensures
            *final(self) == (Registers {
                a: hi8(value),
                f: (lo8(value) & 0xF0u8),
                ..*old(self)
            }),
            pair16(final(self).a, final(self).f) == value & 0xFFF0u16,
            flags_clean(final(self).f),
    {
        proof {
            assert(hi8(value) * 256 + (lo8(value) & 0xF0u8) == value & 0xFFF0u16 && (lo8(value)
                & 0xF0u8) & 0x0Fu8 == 0 && value & 0xFFF0u16 <= 0xFFF0) by (bit_vector);
        }
        self.a = (value / 256) as u8;
        self.f = (value % 256) as u8 & 0xF0;
    }

    pub fn bc(&self) -> (r: u16)
        ensures
            r == pair16(self.b, self.c),
    {
        (self.b as u16) * 256 + (self.c as u16)
    }

    /// Writes the BC pair; the pair accessor then reads back the same value.
    pub fn set_bc(&mut self, value: u16)
        ensures
            *final(self) == (Registers { b: hi8(value), c: lo8(value), ..*old(self) }),
            pair16(final(self).b, final(self).c) == value,
    {
        self.b = (value / 256) as u8;
        self.c = (value % 256) as u8;
    }

    pub fn de(&self) -> (r: u16)
        ensures
            r == pair16(self.d, self.e),
    {
        (self.d as u16) * 256 + (self.e as u16)
    }

    pub fn set_de(&mut self, value: u16)
        ensures
            *final(self) == (Registers { d: hi8(value), e: lo8(value), ..*old(self) }),
            pair16(final(self).d, final(self).e) == value,
    {
        self.d = (value / 256) as u8;
        self.e = (value % 256) as u8;
    }

    pub fn hl(&self) -> (r: u16)
        ensures
            r == pair16(self.h, self.l),
    {
        (self.h as u16) * 256 + (self.l as u16)
    }

    pub fn set_hl(&mut self, value: u16)
        ensures
            *final(self) == (Registers { h: hi8(value), l: lo8(value), ..*old(self) }),
            pair16(final(self).h, final(self).l) == value,
    {
        self.h = (value / 256) as u8;
        self.l = (value % 256) as u8;
    }

    pub fn flag(&self, fl: Flags) -> (r: bool)
        ensures
            r == get_flag(self.f, fl),
    {
        self.f & fl.mask() != 0
    }

    pub fn set_flag(&mut self, fl: Flags, value: bool)
        ensures
            *final(self) == (Registers { f: set_flag_spec(old(self).f, fl, value), ..*old(self) }),
    {
        let m = fl.mask();
        if value {
            self.f = self.f | m;
        } else {
            self.f = self.f & !m;
        }
    }
}

} // verus!
