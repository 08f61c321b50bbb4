//! The arithmetic-logic helpers of the CPU: 8-bit adds and subtracts with
//! carry folded in through a wider accumulator, bitwise operations, the
//! rotate and shift family, BIT/RES/SET, and the decimal adjust. Each
//! helper's contract gives the exact result and the exact flag byte.
use vstd::prelude::*;
use crate::cpu::CPU;
use crate::num::{hi8, lo8, pair16};
use crate::registers::{get_flag, mk_flags, Flags, Registers};

verus! {

/// The 8-bit sum `a + v + cin`, wrapped.
pub open spec fn alu_add_val(a: u8, v: u8, cin: u8) -> u8 {
    if a + v + cin > 0xFF {
        (a + v + cin - 0x100) as u8
    } else {
        (a + v + cin) as u8
    }
}

/// Flags after an add: Z from the wrapped result, N clear, H from the low
/// nibbles plus carry-in, C from the full sum.
pub open spec fn alu_add_flags(a: u8, v: u8, cin: u8) -> u8 {
    mk_flags(
        alu_add_val(a, v, cin) == 0,
        false,
        (a & 0xF) + (v & 0xF) + cin > 0xF,
        a + v + cin > 0xFF,
    )
}

/// The 8-bit difference `a - v - cin`, wrapped.
pub open spec fn alu_sub_val(a: u8, v: u8, cin: u8) -> u8 {
    if a >= v + cin {
        (a - v - cin) as u8
    } else {
        (a - v - cin + 0x100) as u8
    }
}

/// Flags after a subtract: Z from the wrapped result, N set, H when the
/// low nibble borrows, C when the whole byte borrows.
pub open spec fn alu_sub_flags(a: u8, v: u8, cin: u8) -> u8 {
    mk_flags(alu_sub_val(a, v, cin) == 0, true, (a & 0xF) < (v & 0xF) + cin, (a as int) < v + cin)
}

/// The carry-in an ADC or SBC takes from the flag byte.
pub open spec fn carry_in(f: u8) -> u8 {
    if get_flag(f, Flags::C) {
        1
    } else {
        0
    }
}

/// An 8-bit increment leaves C alone: H is set exactly when the low
/// nibble was 0xF.
pub open spec fn inc_val(v: u8) -> u8 {
    v.wrapping_add(1)
}

pub open spec fn inc_flags(v: u8, f: u8) -> u8 {
    mk_flags(inc_val(v) == 0, false, (v & 0xF) == 0xF, get_flag(f, Flags::C))
}

/// An 8-bit decrement leaves C alone: H is set exactly when the low
/// nibble was 0.
pub open spec fn dec_val(v: u8) -> u8 {
    v.wrapping_sub(1)
}

pub open spec fn dec_flags(v: u8, f: u8) -> u8 {
    mk_flags(dec_val(v) == 0, true, (v & 0xF) == 0, get_flag(f, Flags::C))
}

/// ADD HL, rr: Z is left alone, H carries out of bit 11, C out of bit 15.
pub open spec fn add16_val(hl: u16, v: u16) -> u16 {
    hl.wrapping_add(v)
}

pub open spec fn add16_flags(hl: u16, v: u16, f: u8) -> u8 {
    mk_flags(
        get_flag(f, Flags::Z),
        false,
        (hl & 0x0FFF) + (v & 0x0FFF) > 0x0FFF,
        hl + v > 0xFFFF,
    )
}

/// ADD SP, e8 and LD HL, SP+e8: the operand is sign-extended for the sum,
/// but H and C are computed from its unsigned low nibble and low byte.
pub open spec fn addsp_val(sp: u16, e: u8) -> u16 {
    sp.wrapping_add(crate::num::sext16(e))
}

pub open spec fn addsp_flags(sp: u16, e: u8) -> u8 {
    mk_flags(false, false, (sp & 0xF) + (e & 0xF) > 0xF, (sp & 0xFF) + (e & 0xFF) > 0xFF)
}

/// The rotate and shift family, selected the way the CB prefix orders it.
pub open spec fn rot_val(rop: u8, v: u8, c: bool) -> u8 {
    if rop == 0 {  // rotate left, bit 7 into both C and bit 0
        (v << 1) | (if v & 0x80 != 0 {
            1
        } else {
            0
        })
    } else if rop == 1 {  // rotate right, bit 0 into both C and bit 7
        (v >> 1) | (if v & 0x01 != 0 {
            0x80
        } else {
            0
        })
    } else if rop == 2 {  // rotate left through carry
        (v << 1) | (if c {
            1
        } else {
            0
        })
    } else if rop == 3 {  // rotate right through carry
        (v >> 1) | (if c {
            0x80
        } else {
            0
        })
    } else if rop == 4 {  // shift left, bit 0 cleared
        v << 1
    } else if rop == 5 {  // shift right arithmetic, bit 7 kept
        (v >> 1) | (v & 0x80)
    } else if rop == 6 {  // swap nibbles
        (v >> 4) | (v << 4)
    } else {  // shift right logical, bit 7 cleared
        v >> 1
    }
}

/// The carry each rotate or shift puts out; SWAP clears it.
pub open spec fn rot_carry(rop: u8, v: u8) -> bool {
    if rop == 0 || rop == 2 || rop == 4 {
        v & 0x80 != 0
    } else if rop == 6 {
        false
    } else {
        v & 0x01 != 0
    }
}

/// Flags after a CB rotate or shift: Z from the result, N and H clear.
pub open spec fn rot_flags(rop: u8, v: u8, c: bool) -> u8 {
    mk_flags(rot_val(rop, v, c) == 0, false, false, rot_carry(rop, v))
}

/// BIT b: Z mirrors the complement of the tested bit, N clears, H sets,
/// C is left alone.
pub open spec fn bit_flags(b: u8, v: u8, f: u8) -> u8 {
    mk_flags(v & (1u8 << b) == 0, false, true, get_flag(f, Flags::C))
}

pub open spec fn res_val(b: u8, v: u8) -> u8 {
    v & !(1u8 << b)
}

pub open spec fn set_val(b: u8, v: u8) -> u8 {
    v | (1u8 << b)
}

/// The decimal adjust of A: the pending BCD correction chosen from N, H,
/// C and the value, added after an addition and subtracted after a
/// subtraction. Z tracks the result, H clears, and C sets exactly when
/// the high correction fired on the add path (it never clears).
pub open spec fn daa_offset_high(a: u8, f: u8) -> bool {
    get_flag(f, Flags::C) || (!get_flag(f, Flags::N) && a > 0x99)
}

pub open spec fn daa_offset_low(a: u8, f: u8) -> bool {
    get_flag(f, Flags::H) || (!get_flag(f, Flags::N) && (a & 0xF) > 0x9)
}

pub open spec fn daa_offset(a: u8, f: u8) -> u8 {
    ((if daa_offset_high(a, f) {
        0x60int
    } else {
        0int
    }) + (if daa_offset_low(a, f) {
        0x06int
    } else {
        0int
    })) as u8
}

pub open spec fn daa_val(a: u8, f: u8) -> u8 {
    if get_flag(f, Flags::N) {
        a.wrapping_sub(daa_offset(a, f))
    } else {
        a.wrapping_add(daa_offset(a, f))
    }
}

pub open spec fn daa_flags(a: u8, f: u8) -> u8 {
    mk_flags(daa_val(a, f) == 0, get_flag(f, Flags::N), false, daa_offset_high(a, f))
}

impl CPU {
    /// 8-bit increment; only the flags and the returned value move.
    pub fn inc8(&mut self, value: u8) -> (r: u8)
        ensures
            r == inc_val(value),
            *final(self) == (CPU {
                registers: Registers {
                    f: inc_flags(value, old(self).registers.f),
                    ..old(self).registers
                },
                ..*old(self)
            }),
    {
        let result = value.wrapping_add(1);
        self.registers.f = flags_out(result == 0, false, (value & 0x0F) == 0x0F, self.registers.f
            & 0x10 != 0);
        result
    }

    /// 8-bit decrement.
    pub fn dec8(&mut self, value: u8) -> (r: u8)
        ensures
            r == dec_val(value),
            *final(self) == (CPU {
                registers: Registers {
                    f: dec_flags(value, old(self).registers.f),
                    ..old(self).registers
                },
                ..*old(self)
            }),
    {
        let result = value.wrapping_sub(1);
        self.registers.f = flags_out(result == 0, true, (value & 0x0F) == 0, self.registers.f
            & 0x10 != 0);
        result
    }

    /// 8-bit add into A.
    pub fn add8(&mut self, value: u8)
        ensures
            *final(self) == (CPU {
                registers: Registers {
                    a: alu_add_val(old(self).registers.a, value, 0),
                    f: alu_add_flags(old(self).registers.a, value, 0),
                    ..old(self).registers
                },
                ..*old(self)
            }),
    {
        self.alu_add(value, 0);
    }

    /// 8-bit add with carry into A.
    pub fn adc8(&mut self, value: u8)
        ensures
            *final(self) == (CPU {
                registers: Registers {
                    a: alu_add_val(
                        old(self).registers.a,
                        value,
                        carry_in(old(self).registers.f),
                    ),
                    f: alu_add_flags(
                        old(self).registers.a,
                        value,
                        carry_in(old(self).registers.f),
                    ),
                    ..old(self).registers
                },
                ..*old(self)
            }),
    {
        let cin: u8 = if self.registers.flag(Flags::C) {
            1
        } else {
            0
        };
        self.alu_add(value, cin);
    }

    /// The shared add path: A, the operand and the carry summed in one
    /// wider accumulator, so the 0xFF-plus-carry edge comes out right.
    pub fn alu_add(&mut self, value: u8, carry: u8)
        requires
            carry <= 1,
        ensures
            *final(self) == (CPU {
                registers: Registers {
                    a: alu_add_val(old(self).registers.a, value, carry),
                    f: alu_add_flags(old(self).registers.a, value, carry),
                    ..old(self).registers
                },
                ..*old(self)
            }),
    {
        let a = self.registers.a;
        let wide = a as u16 + value as u16 + carry as u16;
        let result = if wide > 0xFF {
            (wide - 0x100) as u8
        } else {
            wide as u8
        };
        self.registers.f = flags_out(
            result == 0,
            false,
            ((a & 0x0F) as u16) + ((value & 0x0F) as u16) + (carry as u16) > 0x0F,
            wide > 0xFF,
        );
        self.registers.a = result;
    }

    /// 8-bit subtract from A.
    pub fn sub8(&mut self, value: u8)
        ensures
            *final(self) == (CPU {
                registers: Registers {
                    a: alu_sub_val(old(self).registers.a, value, 0),
                    f: alu_sub_flags(old(self).registers.a, value, 0),
                    ..old(self).registers
                },
                ..*old(self)
            }),
    {
        self.alu_sub(value, 0);
    }

    /// 8-bit subtract with borrow from A.
    pub fn sbc8(&mut self, value: u8)
        ensures
            *final(self) == (CPU {
                registers: Registers {
                    a: alu_sub_val(
                        old(self).registers.a,
                        value,
                        carry_in(old(self).registers.f),
                    ),
                    f: alu_sub_flags(
                        old(self).registers.a,
                        value,
                        carry_in(old(self).registers.f),
                    ),
                    ..old(self).registers
                },
                ..*old(self)
            }),
    {
        let cin: u8 = if self.registers.flag(Flags::C) {
            1
        } else {
            0
        };
        self.alu_sub(value, cin);
    }

    /// The shared subtract path, carry folded in the same way.
    pub fn alu_sub(&mut self, value: u8, carry: u8)
        requires
            carry <= 1,
        ensures
            *final(self) == (CPU {
                registers: Registers {
                    a: alu_sub_val(old(self).registers.a, value, carry),
                    f: alu_sub_flags(old(self).registers.a, value, carry),
                    ..old(self).registers
                },
                ..*old(self)
            }),
    {
        let a = self.registers.a;
        let result = a.wrapping_sub(value).wrapping_sub(carry);
        self.registers.f = flags_out(
            result == 0,
            true,
            ((a & 0x0F) as u16) < ((value & 0x0F) as u16) + (carry as u16),
            (a as u16) < value as u16 + carry as u16,
        );
        self.registers.a = result;
    }

    /// Bitwise AND into A: H is forced on.
    pub fn and8(&mut self, value: u8)
        ensures
            *final(self) == (CPU {
                registers: Registers {
                    a: old(self).registers.a & value,
                    f: mk_flags((old(self).registers.a & value) == 0, false, true, false),
                    ..old(self).registers
                },
                ..*old(self)
            }),
    {
        let result = self.registers.a & value;
        self.registers.f = flags_out(result == 0, false, true, false);
        self.registers.a = result;
    }

    /// Bitwise XOR into A.
    pub fn xor8(&mut self, value: u8)
        ensures
            *final(self) == (CPU {
                registers: Registers {
                    a: old(self).registers.a ^ value,
                    f: mk_flags((old(self).registers.a ^ value) == 0, false, false, false),
                    ..old(self).registers
                },
                ..*old(self)
            }),
    {
        let result = self.registers.a ^ value;
        self.registers.f = flags_out(result == 0, false, false, false);
        self.registers.a = result;
    }

    /// Bitwise OR into A.
    pub fn or8(&mut self, value: u8)
        ensures
            *final(self) == (CPU {
                registers: Registers {
                    a: old(self).registers.a | value,
                    f: mk_flags((old(self).registers.a | value) == 0, false, false, false),
                    ..old(self).registers
                },
                ..*old(self)
            }),
    {
        let result = self.registers.a | value;
        self.registers.f = flags_out(result == 0, false, false, false);
        self.registers.a = result;
    }

    /// Compare: a subtract whose result is thrown away.
    pub fn cp8(&mut self, value: u8)
        ensures
            *final(self) == (CPU {
                registers: Registers {
                    f: alu_sub_flags(old(self).registers.a, value, 0),
                    ..old(self).registers
                },
                ..*old(self)
            }),
    {
        let a = self.registers.a;
        self.sub8(value);
        self.registers.a = a;
    }

    /// 16-bit add into HL; Z is left alone.
    pub fn add16(&mut self, value: u16)
        ensures
            *final(self) == (CPU {
                registers: Registers {
                    h: hi8(
                        add16_val(
                            pair16(old(self).registers.h, old(self).registers.l),
                            value,
                        ),
                    ),
                    l: lo8(
                        add16_val(
                            pair16(old(self).registers.h, old(self).registers.l),
                            value,
                        ),
                    ),
                    f: add16_flags(
                        pair16(old(self).registers.h, old(self).registers.l),
                        value,
                        old(self).registers.f,
                    ),
                    ..old(self).registers
                },
                ..*old(self)
            }),
    {
        let hl = self.registers.hl();
        let wide = hl as u32 + value as u32;
        self.registers.set_hl(hl.wrapping_add(value));
        self.registers.f = flags_out(
            self.registers.f & 0x80 != 0,
            false,
            ((hl & 0x0FFF) as u32) + ((value & 0x0FFF) as u32) > 0x0FFF,
            wide > 0xFFFF,
        );
        proof {
            crate::registers::lemma_mk_flags(
                get_flag(old(self).registers.f, Flags::Z),
                false,
                (pair16(old(self).registers.h, old(self).registers.l) & 0x0FFF) + (value & 0x0FFF)
                    > 0x0FFF,
                pair16(old(self).registers.h, old(self).registers.l) + value > 0xFFFF,
            );
        }
    }

    /// One of the eight rotates or shifts, selected by index.
    pub fn rot_do(&mut self, rop: u8, value: u8) -> (r: u8)
        requires
            rop < 8,
        ensures
            r == rot_val(rop, value, get_flag(old(self).registers.f, Flags::C)),
            *final(self) == (CPU {
                registers: Registers {
                    f: rot_flags(rop, value, get_flag(old(self).registers.f, Flags::C)),
                    ..old(self).registers
                },
                ..*old(self)
            }),
    {
        if rop == 0 {
            self.rlc(value)
        } else if rop == 1 {
            self.rrc(value)
        } else if rop == 2 {
            self.rl(value)
        } else if rop == 3 {
            self.rr(value)
        } else if rop == 4 {
            self.sla(value)
        } else if rop == 5 {
            self.sra(value)
        } else if rop == 6 {
            self.swap(value)
        } else {
            self.srl(value)
        }
    }

    /// Rotate left: bit 7 lands in both C and bit 0.
    pub fn rlc(&mut self, value: u8) -> (r: u8)
        ensures
            r == rot_val(0, value, get_flag(old(self).registers.f, Flags::C)),
            *final(self) == (CPU {
                registers: Registers {
                    f: rot_flags(0, value, get_flag(old(self).registers.f, Flags::C)),
                    ..old(self).registers
                },
                ..*old(self)
            }),
    {
        let carry = value & 0x80 != 0;
        let result = (value << 1) | (if carry {
            1
        } else {
            0
        });
        self.registers.f = flags_out(result == 0, false, false, carry);
        result
    }

    /// Rotate left through carry: the old C enters at bit 0.
    pub fn rl(&mut self, value: u8) -> (r: u8)
        ensures
            r == rot_val(2, value, get_flag(old(self).registers.f, Flags::C)),
            *final(self) == (CPU {
                registers: Registers {
                    f: rot_flags(2, value, get_flag(old(self).registers.f, Flags::C)),
                    ..old(self).registers
                },
                ..*old(self)
            }),
    {
        let carry = value & 0x80 != 0;
        let result = (value << 1) | (if self.registers.f & 0x10 != 0 {
            1
        } else {
            0
        });
        self.registers.f = flags_out(result == 0, false, false, carry);
        result
    }

    /// Rotate right: bit 0 lands in both C and bit 7.
    pub fn rrc(&mut self, value: u8) -> (r: u8)
        ensures
            r == rot_val(1, value, get_flag(old(self).registers.f, Flags::C)),
            *final(self) == (CPU {
                registers: Registers {
                    f: rot_flags(1, value, get_flag(old(self).registers.f, Flags::C)),
                    ..old(self).registers
                },
                ..*old(self)
            }),
    {
        let carry = value & 0x01 != 0;
        let result = (value >> 1) | (if carry {
            0x80
        } else {
            0
        });
        self.registers.f = flags_out(result == 0, false, false, carry);
        result
    }

    /// Rotate right through carry: the old C enters at bit 7.
    pub fn rr(&mut self, value: u8) -> (r: u8)
        ensures
            r == rot_val(3, value, get_flag(old(self).registers.f, Flags::C)),
            *final(self) == (CPU {
                registers: Registers {
                    f: rot_flags(3, value, get_flag(old(self).registers.f, Flags::C)),
                    ..old(self).registers
                },
                ..*old(self)
            }),
    {
        let carry = value & 0x01 != 0;
        let result = (value >> 1) | (if self.registers.f & 0x10 != 0 {
            0x80
        } else {
            0
        });
        self.registers.f = flags_out(result == 0, false, false, carry);
        result
    }

    /// Shift left into carry; bit 0 comes in clear.
    pub fn sla(&mut self, value: u8) -> (r: u8)
        ensures
            r == rot_val(4, value, get_flag(old(self).registers.f, Flags::C)),
            *final(self) == (CPU {
                registers: Registers {
                    f: rot_flags(4, value, get_flag(old(self).registers.f, Flags::C)),
                    ..old(self).registers
                },
                ..*old(self)
            }),
    {
        let carry = value & 0x80 != 0;
        let result = value << 1;
        self.registers.f = flags_out(result == 0, false, false, carry);
        result
    }

    /// Shift right into carry, keeping the sign bit.
    pub fn sra(&mut self, value: u8) -> (r: u8)
        ensures
            r == rot_val(5, value, get_flag(old(self).registers.f, Flags::C)),
            *final(self) == (CPU {
                registers: Registers {
                    f: rot_flags(5, value, get_flag(old(self).registers.f, Flags::C)),
                    ..old(self).registers
                },
                ..*old(self)
            }),
    {
        let carry = value & 0x01 != 0;
        let result = (value >> 1) | (value & 0x80);
        self.registers.f = flags_out(result == 0, false, false, carry);
        result
    }

    /// Swap the nibbles; C comes out clear.
    pub fn swap(&mut self, value: u8) -> (r: u8)
        ensures
            r == rot_val(6, value, get_flag(old(self).registers.f, Flags::C)),
            *final(self) == (CPU {
                registers: Registers {
                    f: rot_flags(6, value, get_flag(old(self).registers.f, Flags::C)),
                    ..old(self).registers
                },
                ..*old(self)
            }),
    {
        let result = (value >> 4) | (value << 4);
        self.registers.f = flags_out(result == 0, false, false, false);
        result
    }

    /// Shift right into carry, clearing the top bit.
    pub fn srl(&mut self, value: u8) -> (r: u8)
        ensures
            r == rot_val(7, value, get_flag(old(self).registers.f, Flags::C)),
            *final(self) == (CPU {
                registers: Registers {
                    f: rot_flags(7, value, get_flag(old(self).registers.f, Flags::C)),
                    ..old(self).registers
                },
                ..*old(self)
            }),
    {
        let carry = value & 0x01 != 0;
        let result = value >> 1;
        self.registers.f = flags_out(result == 0, false, false, carry);
        result
    }

    /// Test one bit: Z says the bit was clear; C is left alone.
    pub fn bit(&mut self, bit: u8, value: u8)
        requires
            bit < 8,
        ensures
            *final(self) == (CPU {
                registers: Registers {
                    f: bit_flags(bit, value, old(self).registers.f),
                    ..old(self).registers
                },
                ..*old(self)
            }),
    {
        let result = value & (1u8 << bit);
        self.registers.f = flags_out(result == 0, false, true, self.registers.f & 0x10 != 0);
    }

    /// Clear one bit; no flags move.
    pub fn res(&mut self, bit: u8, value: u8) -> (r: u8)
        requires
            bit < 8,
        ensures
            r == res_val(bit, value),
            *final(self) == *old(self),
    {
        value & !(1u8 << bit)
    }

    /// Set one bit; no flags move.
    pub fn set(&mut self, bit: u8, value: u8) -> (r: u8)
        requires
            bit < 8,
        ensures
            r == set_val(bit, value),
            *final(self) == *old(self),
    {
        value | (1u8 << bit)
    }

    /// Decimal adjust of A after a BCD addition or subtraction.
    pub fn daa(&mut self)
        ensures
            *final(self) == (CPU {
                registers: Registers {
                    a: daa_val(old(self).registers.a, old(self).registers.f),
                    f: daa_flags(old(self).registers.a, old(self).registers.f),
                    ..old(self).registers
                },
                ..*old(self)
            }),
    {
        let a = self.registers.a;
        let n = self.registers.flag(Flags::N);
        let high = self.registers.flag(Flags::C) || (!n && a > 0x99);
        let low = self.registers.flag(Flags::H) || (!n && (a & 0x0F) > 0x09);
        let offset: u8 = (if high {
            0x60
        } else {
            0
        }) + (if low {
            0x06
        } else {
            0
        });
        let result = if n {
            a.wrapping_sub(offset)
        } else {
            a.wrapping_add(offset)
        };
        self.registers.a = result;
        self.registers.f = flags_out(result == 0, n, false, if n {
            self.registers.f & 0x10 != 0
        } else {
            high
        });
    }
}

/// Builds the F byte from the four flags; equal to `mk_flags` and kept in
/// executable form for the helpers above.
pub(crate) fn flags_out(z: bool, n: bool, h: bool, c: bool) -> (r: u8)
    ensures
        r == mk_flags(z, n, h, c),
        get_flag(r, Flags::Z) == z,
        get_flag(r, Flags::N) == n,
        get_flag(r, Flags::H) == h,
        get_flag(r, Flags::C) == c,
        crate::registers::flags_clean(r),
{
    proof {
        crate::registers::lemma_mk_flags(z, n, h, c);
    }
    (if z {
        0x80
    } else {
        0
    }) + (if n {
        0x40
    } else {
        0
    }) + (if h {
        0x20
    } else {
        0
    }) + (if c {
        0x10
    } else {
        0
    })
}

} // verus!
