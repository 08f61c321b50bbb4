//! Decode and execute of the 256 base opcodes and the 256 CB-prefixed
//! opcodes. `base_spec` and `cb_spec` state, for every opcode and machine
//! state, the exact next state and T-cycle cost; `next` and `cb` implement
//! them. Register operands are addressed by the three-bit index fields of
//! the opcode, index six standing for memory at HL.
use vstd::prelude::*;
use crate::alu::{
    alu_add_flags, alu_add_val, alu_sub_flags, alu_sub_val, add16_flags, add16_val, addsp_flags,
    addsp_val, bit_flags, carry_in, daa_flags, daa_val, dec_flags, dec_val, inc_flags, inc_val,
    res_val, rot_carry, rot_flags, rot_val, set_val,
};
use crate::cpu::{fetch16_spec, fetch8_spec, pop_spec, push_spec, StepR, SysV, CPU};
use crate::interrupts::{Interrupts, StateChange};
use crate::mmu::{mem_read8, mem_write8, mem_write16};
use crate::num::{hi8, lo8, pair16, sext16};
use crate::registers::{get_flag, mk_flags, Flags, Registers};
use crate::Error;

verus! {
/// The 8-bit register an operand index names: B, C, D, E, H, L, A for
/// indices 0..=5 and 7. Index 6 means memory at HL and is handled at each
/// use site.
pub open spec fn r8get(regs: Registers, idx: u8) -> u8 {
    if idx == 0 {
        regs.b
    } else if idx == 1 {
        regs.c
    } else if idx == 2 {
        regs.d
    } else if idx == 3 {
        regs.e
    } else if idx == 4 {
        regs.h
    } else if idx == 5 {
        regs.l
    } else {
        regs.a
    }
}

/// The register file with the named 8-bit register replaced.
pub open spec fn r8set(regs: Registers, idx: u8, v: u8) -> Registers {
    if idx == 0 {
        Registers { b: v, ..regs }
    } else if idx == 1 {
        Registers { c: v, ..regs }
    } else if idx == 2 {
        Registers { d: v, ..regs }
    } else if idx == 3 {
        Registers { e: v, ..regs }
    } else if idx == 4 {
        Registers { h: v, ..regs }
    } else if idx == 5 {
        Registers { l: v, ..regs }
    } else {
        Registers { a: v, ..regs }
    }
}

/// The 16-bit pair a two-bit index names: BC, DE, HL, SP.
pub open spec fn rr16get(regs: Registers, i: u8) -> u16 {
    if i == 0 {
        pair16(regs.b, regs.c)
    } else if i == 1 {
        pair16(regs.d, regs.e)
    } else if i == 2 {
        pair16(regs.h, regs.l)
    } else {
        regs.sp
    }
}

/// The register file with the named 16-bit pair replaced.
pub open spec fn rr16set(regs: Registers, i: u8, v: u16) -> Registers {
    if i == 0 {
        Registers { b: hi8(v), c: lo8(v), ..regs }
    } else if i == 1 {
        Registers { d: hi8(v), e: lo8(v), ..regs }
    } else if i == 2 {
        Registers { h: hi8(v), l: lo8(v), ..regs }
    } else {
        Registers { sp: v, ..regs }
    }
}

/// The condition a two-bit code tests: NZ, Z, NC, C.
pub open spec fn cond_spec(f: u8, c: u8) -> bool {
    if c == 0 {
        !get_flag(f, Flags::Z)
    } else if c == 1 {
        get_flag(f, Flags::Z)
    } else if c == 2 {
        !get_flag(f, Flags::C)
    } else {
        get_flag(f, Flags::C)
    }
}

/// An arithmetic-logic operation on A, selected by the opcode's middle
/// three bits: ADD, ADC, SUB, SBC, AND, XOR, OR, CP.
pub open spec fn alu_apply(regs: Registers, aluop: u8, v: u8) -> Registers {
    if aluop == 0 {
        Registers { a: alu_add_val(regs.a, v, 0), f: alu_add_flags(regs.a, v, 0), ..regs }
    } else if aluop == 1 {
        Registers {
            a: alu_add_val(regs.a, v, carry_in(regs.f)),
            f: alu_add_flags(regs.a, v, carry_in(regs.f)),
            ..regs
        }
    } else if aluop == 2 {
        Registers { a: alu_sub_val(regs.a, v, 0), f: alu_sub_flags(regs.a, v, 0), ..regs }
    } else if aluop == 3 {
        Registers {
            a: alu_sub_val(regs.a, v, carry_in(regs.f)),
            f: alu_sub_flags(regs.a, v, carry_in(regs.f)),
            ..regs
        }
    } else if aluop == 4 {
        Registers { a: regs.a & v, f: mk_flags((regs.a & v) == 0, false, true, false), ..regs }
    } else if aluop == 5 {
        Registers { a: regs.a ^ v, f: mk_flags((regs.a ^ v) == 0, false, false, false), ..regs }
    } else if aluop == 6 {
        Registers { a: regs.a | v, f: mk_flags((regs.a | v) == 0, false, false, false), ..regs }
    } else {
        Registers { f: alu_sub_flags(regs.a, v, 0), ..regs }
    }
}

/// An instruction outcome that only moved registers.
pub open spec fn outr(s: SysV, regs: Registers, t: nat) -> Option<StepR> {
    Some(StepR { sys: SysV { regs, ..s }, t })
}

/// An instruction outcome.
pub open spec fn out(s: SysV, t: nat) -> Option<StepR> {
    Some(StepR { sys: s, t })
}

/// What one CB-prefixed opcode does, given the state after both opcode
/// bytes are fetched: rotates and shifts, BIT, RES, SET, over a register
/// or over memory at HL.
pub open spec fn cb_spec(s: SysV, op: u8) -> Option<StepR> {
    let grp = op >> 6;
    let bi = (op >> 3) & 7;
    let idx = op & 7;
    let hl = pair16(s.regs.h, s.regs.l);
    let cfl = get_flag(s.regs.f, Flags::C);
    if grp == 0 {
        if idx == 6 {
            let v = mem_read8(s.mem, hl);
            Some(
                StepR {
                    sys: SysV {
                        regs: Registers { f: rot_flags(bi, v, cfl), ..s.regs },
                        mem: mem_write8(s.mem, hl, rot_val(bi, v, cfl)),
                        ..s
                    },
                    t: 16,
                },
            )
        } else {
            let v = r8get(s.regs, idx);
            outr(
                s,
                r8set(Registers { f: rot_flags(bi, v, cfl), ..s.regs }, idx, rot_val(bi, v, cfl)),
                8,
            )
        }
    } else if grp == 1 {
        if idx == 6 {
            outr(
                s,
                Registers { f: bit_flags(bi, mem_read8(s.mem, hl), s.regs.f), ..s.regs },
                12,
            )
        } else {
            outr(s, Registers { f: bit_flags(bi, r8get(s.regs, idx), s.regs.f), ..s.regs }, 8)
        }
    } else if grp == 2 {
        if idx == 6 {
            Some(
                StepR {
                    sys: SysV {
                        mem: mem_write8(s.mem, hl, res_val(bi, mem_read8(s.mem, hl))),
                        ..s
                    },
                    t: 16,
                },
            )
        } else {
            outr(s, r8set(s.regs, idx, res_val(bi, r8get(s.regs, idx))), 8)
        }
    } else {
        if idx == 6 {
            Some(
                StepR {
                    sys: SysV {
                        mem: mem_write8(s.mem, hl, set_val(bi, mem_read8(s.mem, hl))),
                        ..s
                    },
                    t: 16,
                },
            )
        } else {
            outr(s, r8set(s.regs, idx, set_val(bi, r8get(s.regs, idx))), 8)
        }
    }
}

/// The eleven opcodes the instruction set leaves unassigned; executing
/// one is fatal.
pub open spec fn illegal_opcode(op: u8) -> bool {
    op == 0xD3 || op == 0xDB || op == 0xDD || op == 0xE3 || op == 0xE4 || op == 0xEB || op
        == 0xEC || op == 0xED || op == 0xF4 || op == 0xFC || op == 0xFD
}

/// What one base opcode does, given the state after the opcode byte is
/// fetched: the next machine state and the opcode's published T-cycle
/// cost, or `None` for the eleven illegal opcodes.
pub open spec fn base_spec(s: SysV, op: u8) -> Option<StepR> {
    let regs = s.regs;
    let hl = pair16(regs.h, regs.l);
    if op == 0x00 {
        out(s, 4)
    } else if op == 0x10 {
        out(s, 4)
    } else if op == 0x01 || op == 0x11 || op == 0x21 || op == 0x31 {
        let f = fetch16_spec(s);
        outr(f.0, rr16set(f.0.regs, (op >> 4) & 3, f.1), 12)
    } else if op == 0x02 {
        Some(
            StepR {
                sys: SysV { mem: mem_write8(s.mem, pair16(regs.b, regs.c), regs.a), ..s },
                t: 8,
            },
        )
    } else if op == 0x12 {
        Some(
            StepR {
                sys: SysV { mem: mem_write8(s.mem, pair16(regs.d, regs.e), regs.a), ..s },
                t: 8,
            },
        )
    } else if op == 0x22 {
        Some(
            StepR {
                sys: SysV {
                    regs: rr16set(regs, 2, hl.wrapping_add(1)),
                    mem: mem_write8(s.mem, hl, regs.a),
                    ..s
                },
                t: 8,
            },
        )
    } else if op == 0x32 {
        Some(
            StepR {
                sys: SysV {
                    regs: rr16set(regs, 2, hl.wrapping_sub(1)),
                    mem: mem_write8(s.mem, hl, regs.a),
                    ..s
                },
                t: 8,
            },
        )
    } else if op == 0x0A {
        outr(s, Registers { a: mem_read8(s.mem, pair16(regs.b, regs.c)), ..regs }, 8)
    } else if op == 0x1A {
        outr(s, Registers { a: mem_read8(s.mem, pair16(regs.d, regs.e)), ..regs }, 8)
    } else if op == 0x2A {
        outr(
            s,
            rr16set(Registers { a: mem_read8(s.mem, hl), ..regs }, 2, hl.wrapping_add(1)),
            8,
        )
    } else if op == 0x3A {
        outr(
            s,
            rr16set(Registers { a: mem_read8(s.mem, hl), ..regs }, 2, hl.wrapping_sub(1)),
            8,
        )
    } else if op == 0x03 || op == 0x13 || op == 0x23 || op == 0x33 {
        let i = (op >> 4) & 3;
        outr(s, rr16set(regs, i, rr16get(regs, i).wrapping_add(1)), 8)
    } else if op == 0x0B || op == 0x1B || op == 0x2B || op == 0x3B {
        let i = (op >> 4) & 3;
        outr(s, rr16set(regs, i, rr16get(regs, i).wrapping_sub(1)), 8)
    } else if op == 0x04 || op == 0x0C || op == 0x14 || op == 0x1C || op == 0x24 || op == 0x2C || op == 0x3C {
        let i = (op >> 3) & 7;
        let v = r8get(regs, i);
        outr(s, r8set(Registers { f: inc_flags(v, regs.f), ..regs }, i, inc_val(v)), 4)
    } else if op == 0x34 {
        let v = mem_read8(s.mem, hl);
        Some(
            StepR {
                sys: SysV {
                    regs: Registers { f: inc_flags(v, regs.f), ..regs },
                    mem: mem_write8(s.mem, hl, inc_val(v)),
                    ..s
                },
                t: 12,
            },
        )
    } else if op == 0x05 || op == 0x0D || op == 0x15 || op == 0x1D || op == 0x25 || op == 0x2D || op == 0x3D {
        let i = (op >> 3) & 7;
        let v = r8get(regs, i);
        outr(s, r8set(Registers { f: dec_flags(v, regs.f), ..regs }, i, dec_val(v)), 4)
    } else if op == 0x35 {
        let v = mem_read8(s.mem, hl);
        Some(
            StepR {
                sys: SysV {
                    regs: Registers { f: dec_flags(v, regs.f), ..regs },
                    mem: mem_write8(s.mem, hl, dec_val(v)),
                    ..s
                },
                t: 12,
            },
        )
    } else if op == 0x06 || op == 0x0E || op == 0x16 || op == 0x1E || op == 0x26 || op == 0x2E || op == 0x3E {
        let f = fetch8_spec(s);
        outr(f.0, r8set(f.0.regs, (op >> 3) & 7, f.1), 8)
    } else if op == 0x36 {
        let f = fetch8_spec(s);
        Some(StepR { sys: SysV { mem: mem_write8(f.0.mem, hl, f.1), ..f.0 }, t: 12 })
    } else if op == 0x07 {
        outr(
            s,
            Registers {
                a: rot_val(0, regs.a, get_flag(regs.f, Flags::C)),
                f: mk_flags(false, false, false, rot_carry(0, regs.a)),
                ..regs
            },
            4,
        )
    } else if op == 0x0F {
        outr(
            s,
            Registers {
                a: rot_val(1, regs.a, get_flag(regs.f, Flags::C)),
                f: mk_flags(false, false, false, rot_carry(1, regs.a)),
                ..regs
            },
            4,
        )
    } else if op == 0x17 {
        outr(
            s,
            Registers {
                a: rot_val(2, regs.a, get_flag(regs.f, Flags::C)),
                f: mk_flags(false, false, false, rot_carry(2, regs.a)),
                ..regs
            },
            4,
        )
    } else if op == 0x1F {
        outr(
            s,
            Registers {
                a: rot_val(3, regs.a, get_flag(regs.f, Flags::C)),
                f: mk_flags(false, false, false, rot_carry(3, regs.a)),
                ..regs
            },
            4,
        )
    } else if op == 0x08 {
        let f = fetch16_spec(s);
        Some(StepR { sys: SysV { mem: mem_write16(f.0.mem, f.1, regs.sp), ..f.0 }, t: 20 })
    } else if op == 0x09 || op == 0x19 || op == 0x29 || op == 0x39 {
        let v = rr16get(regs, (op >> 4) & 3);
        outr(
            s,
            Registers {
                h: hi8(add16_val(hl, v)),
                l: lo8(add16_val(hl, v)),
                f: add16_flags(hl, v, regs.f),
                ..regs
            },
            8,
        )
    } else if op == 0x18 {
        let f = fetch8_spec(s);
        outr(
            f.0,
            Registers { pc: f.0.regs.pc.wrapping_add(sext16(f.1)), ..f.0.regs },
            12,
        )
    } else if op == 0x20 || op == 0x28 || op == 0x30 || op == 0x38 {
        let f = fetch8_spec(s);
        if cond_spec(regs.f, (op >> 3) & 3) {
            outr(
                f.0,
                Registers { pc: f.0.regs.pc.wrapping_add(sext16(f.1)), ..f.0.regs },
                12,
            )
        } else {
            out(f.0, 8)
        }
    } else if op == 0x27 {
        outr(s, Registers { a: daa_val(regs.a, regs.f), f: daa_flags(regs.a, regs.f), ..regs }, 4)
    } else if op == 0x2F {
        outr(s, Registers { a: !regs.a, f: regs.f | 0x60, ..regs }, 4)
    } else if op == 0x37 {
        outr(s, Registers { f: mk_flags(get_flag(regs.f, Flags::Z), false, false, true), ..regs }, 4)
    } else if op == 0x3F {
        outr(
            s,
            Registers {
                f: mk_flags(get_flag(regs.f, Flags::Z), false, false, !get_flag(regs.f, Flags::C)),
                ..regs
            },
            4,
        )
    } else if op == 0x76 {
        Some(StepR { sys: SysV { halted: true, ..s }, t: 4 })
    } else if (0x40 <= op && op <= 0x7F) {
        let d = (op >> 3) & 7;
        let src = op & 7;
        if src == 6 {
            outr(s, r8set(regs, d, mem_read8(s.mem, hl)), 8)
        } else if d == 6 {
            Some(
                StepR {
                    sys: SysV { mem: mem_write8(s.mem, hl, r8get(regs, src)), ..s },
                    t: 8,
                },
            )
        } else {
            outr(s, r8set(regs, d, r8get(regs, src)), 4)
        }
    } else if (0x80 <= op && op <= 0xBF) {
        let aluop = (op >> 3) & 7;
        let src = op & 7;
        if src == 6 {
            outr(s, alu_apply(regs, aluop, mem_read8(s.mem, hl)), 8)
        } else {
            outr(s, alu_apply(regs, aluop, r8get(regs, src)), 4)
        }
    } else if op == 0xC6 || op == 0xCE || op == 0xD6 || op == 0xDE || op == 0xE6 || op == 0xEE || op == 0xF6 || op == 0xFE {
        let f = fetch8_spec(s);
        outr(f.0, alu_apply(f.0.regs, (op >> 3) & 7, f.1), 8)
    } else if op == 0xC0 || op == 0xC8 || op == 0xD0 || op == 0xD8 {
        if cond_spec(regs.f, (op >> 3) & 3) {
            let p = pop_spec(s);
            outr(p.0, Registers { pc: p.1, ..p.0.regs }, 20)
        } else {
            out(s, 8)
        }
    } else if op == 0xC9 {
        let p = pop_spec(s);
        outr(p.0, Registers { pc: p.1, ..p.0.regs }, 16)
    } else if op == 0xD9 {
        let p = pop_spec(s);
        Some(
            StepR {
                sys: SysV {
                    regs: Registers { pc: p.1, ..p.0.regs },
                    ints: Interrupts { ei: Some(StateChange::Setting), ..p.0.ints },
                    ..p.0
                },
                t: 16,
            },
        )
    } else if op == 0xC1 || op == 0xD1 || op == 0xE1 {
        let p = pop_spec(s);
        outr(p.0, rr16set(p.0.regs, (op >> 4) & 3, p.1), 12)
    } else if op == 0xF1 {
        let p = pop_spec(s);
        outr(p.0, Registers { a: hi8(p.1), f: lo8(p.1) & 0xF0, ..p.0.regs }, 12)
    } else if op == 0xC5 {
        Some(StepR { sys: push_spec(s, pair16(regs.b, regs.c)), t: 16 })
    } else if op == 0xD5 {
        Some(StepR { sys: push_spec(s, pair16(regs.d, regs.e)), t: 16 })
    } else if op == 0xE5 {
        Some(StepR { sys: push_spec(s, hl), t: 16 })
    } else if op == 0xF5 {
        Some(StepR { sys: push_spec(s, pair16(regs.a, regs.f)), t: 16 })
    } else if op == 0xC3 {
        let f = fetch16_spec(s);
        outr(f.0, Registers { pc: f.1, ..f.0.regs }, 16)
    } else if op == 0xC2 || op == 0xCA || op == 0xD2 || op == 0xDA {
        let f = fetch16_spec(s);
        if cond_spec(regs.f, (op >> 3) & 3) {
            outr(f.0, Registers { pc: f.1, ..f.0.regs }, 16)
        } else {
            out(f.0, 12)
        }
    } else if op == 0xE9 {
        outr(s, Registers { pc: hl, ..regs }, 4)
    } else if op == 0xCD {
        let f = fetch16_spec(s);
        let s2 = push_spec(f.0, f.0.regs.pc);
        outr(s2, Registers { pc: f.1, ..s2.regs }, 24)
    } else if op == 0xC4 || op == 0xCC || op == 0xD4 || op == 0xDC {
        let f = fetch16_spec(s);
        if cond_spec(regs.f, (op >> 3) & 3) {
            let s2 = push_spec(f.0, f.0.regs.pc);
            outr(s2, Registers { pc: f.1, ..s2.regs }, 24)
        } else {
            out(f.0, 12)
        }
    } else if op == 0xC7 || op == 0xCF || op == 0xD7 || op == 0xDF || op == 0xE7 || op == 0xEF || op == 0xF7 || op == 0xFF {
        let s2 = push_spec(s, s.regs.pc);
        outr(s2, Registers { pc: (op & 0x38) as u16, ..s2.regs }, 16)
    } else if op == 0xE0 {
        let f = fetch8_spec(s);
        Some(
            StepR {
                sys: SysV {
                    mem: mem_write8(f.0.mem, (0xFF00 + f.1 as int) as u16, regs.a),
                    ..f.0
                },
                t: 12,
            },
        )
    } else if op == 0xF0 {
        let f = fetch8_spec(s);
        outr(
            f.0,
            Registers { a: mem_read8(f.0.mem, (0xFF00 + f.1 as int) as u16), ..f.0.regs },
            12,
        )
    } else if op == 0xE2 {
        Some(
            StepR {
                sys: SysV { mem: mem_write8(s.mem, (0xFF00 + regs.c as int) as u16, regs.a), ..s },
                t: 8,
            },
        )
    } else if op == 0xF2 {
        outr(s, Registers { a: mem_read8(s.mem, (0xFF00 + regs.c as int) as u16), ..regs }, 8)
    } else if op == 0xEA {
        let f = fetch16_spec(s);
        Some(StepR { sys: SysV { mem: mem_write8(f.0.mem, f.1, regs.a), ..f.0 }, t: 16 })
    } else if op == 0xFA {
        let f = fetch16_spec(s);
        outr(f.0, Registers { a: mem_read8(f.0.mem, f.1), ..f.0.regs }, 16)
    } else if op == 0xE8 {
        let f = fetch8_spec(s);
        outr(
            f.0,
            Registers {
                sp: addsp_val(regs.sp, f.1),
                f: addsp_flags(regs.sp, f.1),
                ..f.0.regs
            },
            16,
        )
    } else if op == 0xF8 {
        let f = fetch8_spec(s);
        outr(
            f.0,
            Registers {
                h: hi8(addsp_val(regs.sp, f.1)),
                l: lo8(addsp_val(regs.sp, f.1)),
                f: addsp_flags(regs.sp, f.1),
                ..f.0.regs
            },
            12,
        )
    } else if op == 0xF9 {
        outr(s, Registers { sp: hl, ..regs }, 8)
    } else if op == 0xF3 {
        Some(
            StepR {
                sys: SysV { ints: Interrupts { di: Some(StateChange::Delayed), ..s.ints }, ..s },
                t: 4,
            },
        )
    } else if op == 0xFB {
        Some(
            StepR {
                sys: SysV { ints: Interrupts { ei: Some(StateChange::Delayed), ..s.ints }, ..s },
                t: 4,
            },
        )
    } else if op == 0xCB {
        let f = fetch8_spec(s);
        cb_spec(f.0, f.1)
    } else {
        None
    }
}

/// `base_spec` refuses exactly the eleven illegal opcodes: every other
/// opcode has a defined outcome and cost.
pub proof fn lemma_illegal_set(s: SysV, op: u8)
    ensures
        (base_spec(s, op) is None) == illegal_opcode(op),
{
}

/// No instruction dirties the low nibble of F: every flag byte the
/// instruction set installs is built from the four flags, masked, or a
/// clean byte's complement adjustment.
#[verifier::rlimit(100)]
pub proof fn lemma_instructions_keep_flags_clean(s: SysV, op: u8)
    requires
        crate::registers::flags_clean(s.regs.f),
    ensures
        (match base_spec(s, op) {
            Some(st) => crate::registers::flags_clean(st.sys.regs.f),
            None => true,
        }),
{
    assert forall|z: bool, n: bool, h: bool, c: bool|
        crate::registers::flags_clean(#[trigger] mk_flags(z, n, h, c)) by {
        crate::registers::lemma_mk_flags(z, n, h, c);
    }
    assert forall|f: u8| f & 0x0Fu8 == 0 ==> #[trigger] (f | 0x60u8) & 0x0Fu8 == 0 by {
        assert(f & 0x0Fu8 == 0 ==> (f | 0x60u8) & 0x0Fu8 == 0) by (bit_vector);
    }
    assert forall|v: u16| #[trigger] (lo8(v) & 0xF0u8) & 0x0Fu8 == 0 by {
        assert(((v % 256) as u8 & 0xF0u8) & 0x0Fu8 == 0) by (bit_vector);
    }
    let goal = (match base_spec(s, op) {
        Some(st) => crate::registers::flags_clean(st.sys.regs.f),
        None => true,
    });
    if op < 0x40 {
        assert(goal);
    } else if op < 0x80 {
        assert(goal);
    } else if op < 0xC0 {
        assert(goal);
    } else if op == 0xCB {
        assert(goal);
    } else {
        assert(goal);
    }
}

impl CPU {
    /// Reads the 8-bit register an operand index names.
    fn getr(&self, idx: u8) -> (r: u8)
    requires
    idx < 8,
    idx != 6,
    ensures
    r == r8get(self.registers, idx),
    {
        if idx == 0 {
            self.registers.b
        } else if idx == 1 {
            self.registers.c
        } else if idx == 2 {
            self.registers.d
        } else if idx == 3 {
            self.registers.e
        } else if idx == 4 {
            self.registers.h
        } else if idx == 5 {
            self.registers.l
        } else {
            self.registers.a
        }
    }

    /// Writes the 8-bit register an operand index names.
    fn setr(&mut self, idx: u8, v: u8)
    requires
    idx < 8,
    idx != 6,
    ensures
    *final(self) == (CPU { registers: r8set(old(self).registers, idx, v), ..*old(self) }),
    {
        if idx == 0 {
            self.registers.b = v;
        } else if idx == 1 {
            self.registers.c = v;
        } else if idx == 2 {
            self.registers.d = v;
        } else if idx == 3 {
            self.registers.e = v;
        } else if idx == 4 {
            self.registers.h = v;
        } else if idx == 5 {
            self.registers.l = v;
        } else {
            self.registers.a = v;
        }
    }

    /// Reads the 16-bit pair a two-bit index names.
    fn getrr(&self, i: u8) -> (r: u16)
    requires
    i < 4,
    ensures
    r == rr16get(self.registers, i),
    {
        if i == 0 {
            self.registers.bc()
        } else if i == 1 {
            self.registers.de()
        } else if i == 2 {
            self.registers.hl()
        } else {
            self.registers.sp
        }
    }

    /// Writes the 16-bit pair a two-bit index names.
    fn setrr(&mut self, i: u8, v: u16)
    requires
    i < 4,
    ensures
    *final(self) == (CPU { registers: rr16set(old(self).registers, i, v), ..*old(self) }),
    {
        if i == 0 {
            self.registers.set_bc(v);
        } else if i == 1 {
            self.registers.set_de(v);
        } else if i == 2 {
            self.registers.set_hl(v);
        } else {
            self.registers.sp = v;
        }
    }

    /// Tests the condition a two-bit code names.
    fn cond(&self, c: u8) -> (r: bool)
    requires
    c < 4,
    ensures
    r == cond_spec(self.registers.f, c),
    {
        if c == 0 {
            !self.registers.flag(Flags::Z)
        } else if c == 1 {
            self.registers.flag(Flags::Z)
        } else if c == 2 {
            !self.registers.flag(Flags::C)
        } else {
            self.registers.flag(Flags::C)
        }
    }

    /// Runs the arithmetic-logic operation an index names against A.
    fn alu_do(&mut self, aluop: u8, v: u8)
    requires
    aluop < 8,
    ensures
    *final(self) == (CPU {
            registers: alu_apply(old(self).registers, aluop, v),
            ..*old(self)
    }),
    {
        if aluop == 0 {
            self.add8(v);
        } else if aluop == 1 {
            self.adc8(v);
        } else if aluop == 2 {
            self.sub8(v);
        } else if aluop == 3 {
            self.sbc8(v);
        } else if aluop == 4 {
            self.and8(v);
        } else if aluop == 5 {
            self.xor8(v);
        } else if aluop == 6 {
            self.or8(v);
        } else {
            self.cp8(v);
        }
    }
}
} // verus!

verus! {
impl CPU {
    /// Fetches, decodes and executes one instruction, returning its
    /// T-cycle cost, exactly as `base_spec` states it; the eleven illegal
    /// opcodes come back as errors with PC one past the offending byte.
    #[verifier::rlimit(100)]
    pub(crate) fn next(&mut self) -> (r: Result<usize, Error>)
    requires
    old(self).wf(),
    ensures
    final(self).wf(),
    ({
            let oped = fetch8_spec(old(self).sv());
            match base_spec(oped.0, oped.1) {
                Some(st) => (match r {
                        Ok(t) => t as nat == st.t && final(self).sv() == st.sys,
                        Err(_) => false,
                }),
                None => r == Err::<usize, Error>(Error::IllegalInstruction(oped.1))
                && final(self).sv() == oped.0,
            }
    }),
    {
        let op = self.fetch8();
        proof {
            assert(((op >> 3) & 7u8) < 8 && (op & 7u8) < 8 && ((op >> 4) & 3u8) < 4 && ((op >> 3)
                    & 3u8) < 4) by (bit_vector);
            assert((op == 0x04 || op == 0x0C || op == 0x14 || op == 0x1C || op == 0x24 || op
                    == 0x2C || op == 0x3C || op == 0x05 || op == 0x0D || op == 0x15 || op == 0x1D
                    || op == 0x25 || op == 0x2D || op == 0x3D || op == 0x06 || op == 0x0E || op
                    == 0x16 || op == 0x1E || op == 0x26 || op == 0x2E || op == 0x3E) ==> ((op >> 3)
                    & 7u8) != 6) by (bit_vector);
            assert((0x40 <= op && op <= 0x7F && op != 0x76 && (op & 7u8) == 6) ==> ((op >> 3)
                    & 7u8) != 6) by (bit_vector);
        }
        if op == 0x00 {
            Ok(4)
        } else if op == 0x10 {
            Ok(4)
        } else if op == 0x01 || op == 0x11 || op == 0x21 || op == 0x31 {
            let v = self.fetch16();
            self.setrr((op >> 4) & 3, v);
            Ok(12)
        } else if op == 0x02 {
            let addr = self.registers.bc();
            let a = self.registers.a;
            self.mmu.write8(addr, a);
            Ok(8)
        } else if op == 0x12 {
            let addr = self.registers.de();
            let a = self.registers.a;
            self.mmu.write8(addr, a);
            Ok(8)
        } else if op == 0x22 {
            let hl = self.registers.hl();
            let a = self.registers.a;
            self.mmu.write8(hl, a);
            self.registers.set_hl(hl.wrapping_add(1));
            Ok(8)
        } else if op == 0x32 {
            let hl = self.registers.hl();
            let a = self.registers.a;
            self.mmu.write8(hl, a);
            self.registers.set_hl(hl.wrapping_sub(1));
            Ok(8)
        } else if op == 0x0A {
            let addr = self.registers.bc();
            self.registers.a = self.mmu.read8(addr);
            Ok(8)
        } else if op == 0x1A {
            let addr = self.registers.de();
            self.registers.a = self.mmu.read8(addr);
            Ok(8)
        } else if op == 0x2A {
            let hl = self.registers.hl();
            self.registers.a = self.mmu.read8(hl);
            self.registers.set_hl(hl.wrapping_add(1));
            Ok(8)
        } else if op == 0x3A {
            let hl = self.registers.hl();
            self.registers.a = self.mmu.read8(hl);
            self.registers.set_hl(hl.wrapping_sub(1));
            Ok(8)
        } else if op == 0x03 || op == 0x13 || op == 0x23 || op == 0x33 {
            let i = (op >> 4) & 3;
            let v = self.getrr(i);
            self.setrr(i, v.wrapping_add(1));
            Ok(8)
        } else if op == 0x0B || op == 0x1B || op == 0x2B || op == 0x3B {
            let i = (op >> 4) & 3;
            let v = self.getrr(i);
            self.setrr(i, v.wrapping_sub(1));
            Ok(8)
        } else if op == 0x04 || op == 0x0C || op == 0x14 || op == 0x1C || op == 0x24 || op == 0x2C || op == 0x3C {
            let i = (op >> 3) & 7;
            let v = self.getr(i);
            let nv = self.inc8(v);
            self.setr(i, nv);
            Ok(4)
        } else if op == 0x34 {
            let hl = self.registers.hl();
            let v = self.mmu.read8(hl);
            let nv = self.inc8(v);
            self.mmu.write8(hl, nv);
            Ok(12)
        } else if op == 0x05 || op == 0x0D || op == 0x15 || op == 0x1D || op == 0x25 || op == 0x2D || op == 0x3D {
            let i = (op >> 3) & 7;
            let v = self.getr(i);
            let nv = self.dec8(v);
            self.setr(i, nv);
            Ok(4)
        } else if op == 0x35 {
            let hl = self.registers.hl();
            let v = self.mmu.read8(hl);
            let nv = self.dec8(v);
            self.mmu.write8(hl, nv);
            Ok(12)
        } else if op == 0x06 || op == 0x0E || op == 0x16 || op == 0x1E || op == 0x26 || op == 0x2E || op == 0x3E {
            let v = self.fetch8();
            self.setr((op >> 3) & 7, v);
            Ok(8)
        } else if op == 0x36 {
            let v = self.fetch8();
            let hl = self.registers.hl();
            self.mmu.write8(hl, v);
            Ok(12)
        } else if op == 0x07 {
            let a = self.registers.a;
            let v = self.rot_do(0, a);
            self.registers.a = v;
            self.registers.f = crate::alu::flags_out(false, false, false, a & 0x80 != 0);
            Ok(4)
        } else if op == 0x0F {
            let a = self.registers.a;
            let v = self.rot_do(1, a);
            self.registers.a = v;
            self.registers.f = crate::alu::flags_out(false, false, false, a & 0x01 != 0);
            Ok(4)
        } else if op == 0x17 {
            let a = self.registers.a;
            let v = self.rot_do(2, a);
            self.registers.a = v;
            self.registers.f = crate::alu::flags_out(false, false, false, a & 0x80 != 0);
            Ok(4)
        } else if op == 0x1F {
            let a = self.registers.a;
            let v = self.rot_do(3, a);
            self.registers.a = v;
            self.registers.f = crate::alu::flags_out(false, false, false, a & 0x01 != 0);
            Ok(4)
        } else if op == 0x08 {
            let addr = self.fetch16();
            let sp = self.registers.sp;
            self.mmu.write16(addr, sp);
            Ok(20)
        } else if op == 0x09 || op == 0x19 || op == 0x29 || op == 0x39 {
            let v = self.getrr((op >> 4) & 3);
            self.add16(v);
            Ok(8)
        } else if op == 0x18 {
            self.jr(true);
            Ok(12)
        } else if op == 0x20 || op == 0x28 || op == 0x30 || op == 0x38 {
            let c = self.cond((op >> 3) & 3);
            if self.jr(c) {
                Ok(12)
            } else {
                Ok(8)
            }
        } else if op == 0x27 {
            self.daa();
            Ok(4)
        } else if op == 0x2F {
            self.registers.a = !self.registers.a;
            self.registers.f = self.registers.f | 0x60;
            Ok(4)
        } else if op == 0x37 {
            let z = self.registers.flag(Flags::Z);
            self.registers.f = crate::alu::flags_out(z, false, false, true);
            Ok(4)
        } else if op == 0x3F {
            let z = self.registers.flag(Flags::Z);
            let c = self.registers.flag(Flags::C);
            self.registers.f = crate::alu::flags_out(z, false, false, !c);
            Ok(4)
        } else if op == 0x76 {
            self.halted = true;
            Ok(4)
        } else if (0x40 <= op && op <= 0x7F) {
            let d = (op >> 3) & 7;
            let src = op & 7;
            if src == 6 {
                let hl = self.registers.hl();
                let v = self.mmu.read8(hl);
                self.setr(d, v);
                Ok(8)
            } else if d == 6 {
                let hl = self.registers.hl();
                let v = self.getr(src);
                self.mmu.write8(hl, v);
                Ok(8)
            } else {
                let v = self.getr(src);
                self.setr(d, v);
                Ok(4)
            }
        } else if (0x80 <= op && op <= 0xBF) {
            let aluop = (op >> 3) & 7;
            let src = op & 7;
            if src == 6 {
                let hl = self.registers.hl();
                let v = self.mmu.read8(hl);
                self.alu_do(aluop, v);
                Ok(8)
            } else {
                let v = self.getr(src);
                self.alu_do(aluop, v);
                Ok(4)
            }
        } else if op == 0xC6 || op == 0xCE || op == 0xD6 || op == 0xDE || op == 0xE6 || op == 0xEE || op == 0xF6 || op == 0xFE {
            let v = self.fetch8();
            self.alu_do((op >> 3) & 7, v);
            Ok(8)
        } else if op == 0xC0 || op == 0xC8 || op == 0xD0 || op == 0xD8 {
            if self.cond((op >> 3) & 3) {
                let v = self.pop();
                self.registers.pc = v;
                Ok(20)
            } else {
                Ok(8)
            }
        } else if op == 0xC9 {
            let v = self.pop();
            self.registers.pc = v;
            Ok(16)
        } else if op == 0xD9 {
            let v = self.pop();
            self.registers.pc = v;
            self.interrupts.enable(true);
            Ok(16)
        } else if op == 0xC1 || op == 0xD1 || op == 0xE1 {
            let v = self.pop();
            self.setrr((op >> 4) & 3, v);
            Ok(12)
        } else if op == 0xF1 {
            let v = self.pop();
            self.registers.set_af(v);
            Ok(12)
        } else if op == 0xC5 {
            let v = self.registers.bc();
            self.push(v);
            Ok(16)
        } else if op == 0xD5 {
            let v = self.registers.de();
            self.push(v);
            Ok(16)
        } else if op == 0xE5 {
            let v = self.registers.hl();
            self.push(v);
            Ok(16)
        } else if op == 0xF5 {
            let v = self.registers.af();
            self.push(v);
            Ok(16)
        } else if op == 0xC3 {
            let addr = self.fetch16();
            self.registers.pc = addr;
            Ok(16)
        } else if op == 0xC2 || op == 0xCA || op == 0xD2 || op == 0xDA {
            let addr = self.fetch16();
            if self.cond((op >> 3) & 3) {
                self.registers.pc = addr;
                Ok(16)
            } else {
                Ok(12)
            }
        } else if op == 0xE9 {
            self.registers.pc = self.registers.hl();
            Ok(4)
        } else if op == 0xCD {
            let addr = self.fetch16();
            let pc = self.registers.pc;
            self.push(pc);
            self.registers.pc = addr;
            Ok(24)
        } else if op == 0xC4 || op == 0xCC || op == 0xD4 || op == 0xDC {
            let addr = self.fetch16();
            if self.cond((op >> 3) & 3) {
                let pc = self.registers.pc;
                self.push(pc);
                self.registers.pc = addr;
                Ok(24)
            } else {
                Ok(12)
            }
        } else if op == 0xC7 || op == 0xCF || op == 0xD7 || op == 0xDF || op == 0xE7 || op == 0xEF || op == 0xF7 || op == 0xFF {
            let pc = self.registers.pc;
            self.push(pc);
            self.registers.pc = (op & 0x38) as u16;
            Ok(16)
        } else if op == 0xE0 {
            let e = self.fetch8();
            let a = self.registers.a;
            self.mmu.write8(0xFF00 + e as u16, a);
            Ok(12)
        } else if op == 0xF0 {
            let e = self.fetch8();
            self.registers.a = self.mmu.read8(0xFF00 + e as u16);
            Ok(12)
        } else if op == 0xE2 {
            let a = self.registers.a;
            let c = self.registers.c;
            self.mmu.write8(0xFF00 + c as u16, a);
            Ok(8)
        } else if op == 0xF2 {
            let c = self.registers.c;
            self.registers.a = self.mmu.read8(0xFF00 + c as u16);
            Ok(8)
        } else if op == 0xEA {
            let addr = self.fetch16();
            let a = self.registers.a;
            self.mmu.write8(addr, a);
            Ok(16)
        } else if op == 0xFA {
            let addr = self.fetch16();
            self.registers.a = self.mmu.read8(addr);
            Ok(16)
        } else if op == 0xE8 {
            let e = self.fetch8();
            let sp = self.registers.sp;
            let off = crate::num::sign_extend(e);
            self.registers.sp = sp.wrapping_add(off);
            let h = ((sp & 0xF) as u32) + ((e & 0xF) as u32) > 0xF;
            let c = ((sp & 0xFF) as u32) + ((e & 0xFF) as u32) > 0xFF;
            self.registers.f = crate::alu::flags_out(false, false, h, c);
            Ok(16)
        } else if op == 0xF8 {
            let e = self.fetch8();
            let sp = self.registers.sp;
            let off = crate::num::sign_extend(e);
            self.registers.set_hl(sp.wrapping_add(off));
            let h = ((sp & 0xF) as u32) + ((e & 0xF) as u32) > 0xF;
            let c = ((sp & 0xFF) as u32) + ((e & 0xFF) as u32) > 0xFF;
            self.registers.f = crate::alu::flags_out(false, false, h, c);
            Ok(12)
        } else if op == 0xF9 {
            self.registers.sp = self.registers.hl();
            Ok(8)
        } else if op == 0xF3 {
            self.interrupts.disable();
            Ok(4)
        } else if op == 0xFB {
            self.interrupts.enable(false);
            Ok(4)
        } else if op == 0xCB {
            let t = self.cb();
            Ok(t)
        } else {
            Err(
                Error::IllegalInstruction(op),
            )
        }
    }

    /// Executes one CB-prefixed opcode, fetching its second byte first,
    /// exactly as `cb_spec` states it; returns the T-cycle cost.
    fn cb(&mut self) -> (t: usize)
    requires
    old(self).wf(),
    ensures
    final(self).wf(),
    ({
            let oped = fetch8_spec(old(self).sv());
            match cb_spec(oped.0, oped.1) {
                Some(st) => t as nat == st.t && final(self).sv() == st.sys,
                None => false,
            }
    }),
    {
        let op = self.fetch8();
        proof {
            assert(((op >> 3) & 7u8) < 8 && (op & 7u8) < 8) by (bit_vector);
        }
        let grp = op >> 6;
        let bi = (op >> 3) & 7;
        let idx = op & 7;
        if grp == 0 {
            if idx == 6 {
                let hl = self.registers.hl();
                let v = self.mmu.read8(hl);
                let rv = self.rot_do(bi, v);
                self.mmu.write8(hl, rv);
                16
            } else {
                let v = self.getr(idx);
                let rv = self.rot_do(bi, v);
                self.setr(idx, rv);
                8
            }
        } else if grp == 1 {
            if idx == 6 {
                let hl = self.registers.hl();
                let v = self.mmu.read8(hl);
                self.bit(bi, v);
                12
            } else {
                let v = self.getr(idx);
                self.bit(bi, v);
                8
            }
        } else if grp == 2 {
            if idx == 6 {
                let hl = self.registers.hl();
                let v = self.mmu.read8(hl);
                let rv = self.res(bi, v);
                self.mmu.write8(hl, rv);
                16
            } else {
                let v = self.getr(idx);
                let rv = self.res(bi, v);
                self.setr(idx, rv);
                8
            }
        } else {
            if idx == 6 {
                let hl = self.registers.hl();
                let v = self.mmu.read8(hl);
                let rv = self.set(bi, v);
                self.mmu.write8(hl, rv);
                16
            } else {
                let v = self.getr(idx);
                let rv = self.set(bi, v);
                self.setr(idx, rv);
                8
            }
        }
    }
}
} // verus!
