//! The CPU: the fetch-decode-execute step, interrupt servicing, the halt
//! idle, and the T-cycle accounting that drives the timer. `step_rel` is
//! the contract of one step: it fixes the next machine state and the exact
//! cycle charge for every starting state.
use vstd::prelude::*;
use crate::cartridge::Cartridge;
use crate::interrupts::{
    handler_address, handler_address_spec, ints_update, requested_spec, valid_interrupt,
    Interrupts, TIMER,
};
use crate::mmu::{mem_read16, mem_read8, mem_write16, mem_write8, Mapper, MemV};
use crate::num::{hi8, lo8, pair16, sext16};
use crate::registers::{initial_registers, Registers};
use crate::timer::{timer_ticks, Timer};
use crate::Error;

verus! {

/// The hand-held revisions this core models; both share the same CPU
/// semantics at this level.
#[derive(Debug, Clone, Copy, PartialEq, Eq)]
pub enum Model {
    /// The original unit.
    DMG,
    /// The pocket revision.
    MGB,
}

/// The whole machine as the specifications see it: the register file, the
/// bus, the interrupt controller, the halt latch, and the running T-cycle
/// tally.
#[verifier::ext_equal]
pub ghost struct SysV {
    pub regs: Registers,
    pub mem: MemV,
    pub ints: Interrupts,
    pub halted: bool,
    pub cycles: u64,
}

/// The outcome of executing one decoded instruction: the machine after its
/// effects, and the T-cycles it costs.
#[verifier::ext_equal]
pub ghost struct StepR {
    pub sys: SysV,
    pub t: nat,
}

/// One operand byte fetched at PC, which then advances with wraparound.
pub open spec fn fetch8_spec(s: SysV) -> (SysV, u8) {
    (
        SysV { regs: Registers { pc: s.regs.pc.wrapping_add(1), ..s.regs }, ..s },
        mem_read8(s.mem, s.regs.pc),
    )
}

/// A 16-bit operand fetched little-endian at PC, which advances by two.
pub open spec fn fetch16_spec(s: SysV) -> (SysV, u16) {
    (
        SysV { regs: Registers { pc: s.regs.pc.wrapping_add(2), ..s.regs }, ..s },
        mem_read16(s.mem, s.regs.pc),
    )
}

/// A push: SP drops by two, then the value goes to the new SP
/// little-endian, so the high byte sits at the higher address.
pub open spec fn push_spec(s: SysV, v: u16) -> SysV {
    SysV {
        regs: Registers { sp: s.regs.sp.wrapping_sub(2), ..s.regs },
        mem: mem_write16(s.mem, s.regs.sp.wrapping_sub(2), v),
        ..s
    }
}

/// A pop: the value read at SP, which then rises by two.
pub open spec fn pop_spec(s: SysV) -> (SysV, u16) {
    (
        SysV { regs: Registers { sp: s.regs.sp.wrapping_add(2), ..s.regs }, ..s },
        mem_read16(s.mem, s.regs.sp),
    )
}

/// Charging `n` T-cycles: the tally grows by `n`, the timer advances `n`
/// ticks, and a pending timer overflow latches the TIMER bit into IF and
/// drains, all within this one charge.
pub open spec fn sys_tick(s: SysV, n: nat) -> SysV {
    let t2 = timer_ticks(s.mem.tmr, n);
    let m2 = if t2.interrupt {
        MemV { tmr: Timer { interrupt: false, ..t2 }, iflag: s.mem.iflag | TIMER, ..s.mem }
    } else {
        MemV { tmr: t2, ..s.mem }
    };
    SysV { mem: m2, cycles: s.cycles.wrapping_add(n as u64), ..s }
}

/// Servicing one interrupt: the return address is pushed, PC jumps to the
/// handler vector, the serviced bit leaves IF, the CPU wakes, and IME
/// drops.
pub open spec fn service_spec(s: SysV, mask: u8) -> SysV {
    let s1 = push_spec(s, s.regs.pc);
    SysV {
        regs: Registers { pc: handler_address_spec(mask), ..s1.regs },
        mem: MemV { iflag: (s1.mem.iflag & !mask) as u8, ..s1.mem },
        ints: Interrupts { ime: false, ..s1.ints },
        halted: false,
        ..s1
    }
}

/// The halt idle: four T-cycles pass, and the CPU wakes as soon as any IF
/// bit is set afterwards, whether or not that interrupt can be serviced.
pub open spec fn halt_rel(s: SysV, post: SysV, r: Result<(), Error>) -> bool {
    let s2 = sys_tick(s, 4);
    r == Ok::<(), Error>(()) && post == (if s2.mem.iflag != 0 {
        SysV { halted: false, ..s2 }
    } else {
        s2
    })
}

/// Fetch and execute one instruction: the opcode's effects and its exact
/// published cycle cost, or the illegal-instruction error with PC one past
/// the offending byte.
pub open spec fn exec_rel(s: SysV, post: SysV, r: Result<(), Error>) -> bool {
    let oped = fetch8_spec(s);
    match crate::exec::base_spec(oped.0, oped.1) {
        Some(st) => post == sys_tick(st.sys, st.t) && r == Ok::<(), Error>(()),
        None => post == oped.0 && r == Err::<(), Error>(Error::IllegalInstruction(oped.1)),
    }
}

/// One whole step. First the pending EI/DI pipelines advance. Then exactly
/// one of three things happens: the highest-priority enabled-and-pending
/// interrupt is serviced for 16 T-cycles (only with IME set); a halted CPU
/// idles 4 T-cycles and wakes if IF is non-zero; or one instruction runs.
pub open spec fn step_rel(pre: SysV, post: SysV, r: Result<(), Error>) -> bool {
    let s = SysV { ints: ints_update(pre.ints), ..pre };
    match requested_spec(s.ints, s.halted, s.mem.ie, s.mem.iflag) {
        Some(mask) => if s.ints.ime {
            post == sys_tick(service_spec(s, mask), 16) && r == Ok::<(), Error>(())
        } else {
            halt_rel(s, post, r)
        },
        None => if s.halted {
            halt_rel(s, post, r)
        } else {
            exec_rel(s, post, r)
        },
    }
}

/// The CPU owns the register file, the bus, the halt latch, the interrupt
/// controller, and the T-cycle tally that every charge lands in.
pub struct CPU {
    pub registers: Registers,
    pub mmu: Mapper,
    pub halted: bool,
    pub interrupts: Interrupts,
    /// Total T-cycles charged so far, wrapping.
    pub cycles: u64,
}

impl CPU {
    /// The structural facts the CPU relies on, all about its bus.
    pub open spec fn wf(self) -> bool {
        self.mmu.wf()
    }

    /// The machine as the specifications see it.
    pub open spec fn sv(self) -> SysV {
        SysV {
            regs: self.registers,
            mem: self.mmu.mv(),
            ints: self.interrupts,
            halted: self.halted,
            cycles: self.cycles,
        }
    }

    /// A machine at power-on, post boot ROM: canonical registers, a fresh
    /// bus around the cartridge, interrupts off, nothing charged yet.
    pub fn new(model: Model, cartridge: Cartridge) -> (r: CPU)
        requires
            cartridge.rom@.len() > 0x14D,
        ensures
            r.wf(),
            r.sv().regs == initial_registers(cartridge.rom@[0x14D]),
            r.sv().mem.rom == cartridge.rom@,
            r.sv().mem.wram == Seq::new(0x2000, |j: int| 0u8),
            r.sv().mem.hram == Seq::new(0x80, |j: int| 0u8),
            r.sv().mem.ie == 0,
            r.sv().mem.iflag == 0,
            r.sv().mem.sb == 0,
            r.sv().mem.sc == 0,
            r.sv().mem.tmr == (Timer {
                interrupt: false,
                div: crate::timer::Counter { count: 0, value: 0, every: 256, enabled: true },
                tima: crate::timer::Counter { count: 0, value: 0, every: 1024, enabled: false },
                tma: 0,
            }),
            !r.sv().mem.debug,
            r.sv().mem.fault is None,
            r.sv().ints == (Interrupts { ime: false, ei: None, di: None }),
            !r.sv().halted,
            r.sv().cycles == 0,
    {
        let registers = Registers::new(model, &cartridge);
        CPU {
            registers,
            mmu: Mapper::new(cartridge),
            halted: false,
            interrupts: Interrupts::default(),
            cycles: 0,
        }
    }

    /// Turns the debug conveniences on or off: the pinned LY line and the
    /// host-drained serial output.
    pub fn debug_mode(&mut self, enable: bool)
        requires
            old(self).wf(),
        ensures
            final(self).wf(),
            final(self).sv() == (SysV {
                mem: MemV { debug: enable, ..old(self).sv().mem },
                ..old(self).sv()
            }),
    {
        self.mmu.debug = enable;
        proof {
            assert(self.sv() =~~= (SysV {
                mem: MemV { debug: enable, ..old(self).sv().mem },
                ..old(self).sv()
            }));
        }
    }

    /// Drains one byte of serial output, clearing the transfer-control
    /// byte; the host prints what comes out.
    pub fn debug_serial(&mut self) -> (r: Option<u8>)
        requires
            old(self).wf(),
        ensures
            final(self).wf(),
            (if old(self).sv().mem.debug && old(self).sv().mem.sc == 0x81 {
                r == Some(old(self).sv().mem.sb) && final(self).sv() == (SysV {
                    mem: MemV { sc: 0, ..old(self).sv().mem },
                    ..old(self).sv()
                })
            } else {
                r is None && *final(self) == *old(self)
            }),
    {
        let r = self.mmu.debug_serial();
        proof {
            if old(self).sv().mem.debug && old(self).sv().mem.sc == 0x81 {
                assert(self.sv() =~~= (SysV {
                    mem: MemV { sc: 0, ..old(self).sv().mem },
                    ..old(self).sv()
                }));
            }
        }
        r
    }

    /// Charges `t` T-cycles: tally, timer, and the IF latch for a timer
    /// overflow.
    pub fn ticks(&mut self, t: usize)
        requires
            old(self).wf(),
        ensures
            final(self).wf(),
            final(self).sv() == sys_tick(old(self).sv(), t as nat),
    {
        self.cycles = self.cycles.wrapping_add(t as u64);
        self.mmu.timer.ticks(t);
        if self.mmu.timer.interrupt {
            self.mmu.iflag.value = self.mmu.iflag.value | TIMER;
            self.mmu.timer.interrupt = false;
        }
        proof {
            assert(self.sv() =~~= sys_tick(old(self).sv(), t as nat));
        }
    }

    /// Fetches the byte at PC and advances PC.
    pub fn fetch8(&mut self) -> (r: u8)
        requires
            old(self).wf(),
        ensures
            final(self).wf(),
            final(self).sv() == fetch8_spec(old(self).sv()).0,
            r == fetch8_spec(old(self).sv()).1,
    {
        let pc = self.registers.pc;
        self.registers.pc = pc.wrapping_add(1);
        let r = self.mmu.read8(pc);
        proof {
            assert(self.sv() =~~= fetch8_spec(old(self).sv()).0);
        }
        r
    }

    /// Fetches a 16-bit operand little-endian at PC and advances PC by two.
    pub fn fetch16(&mut self) -> (r: u16)
        requires
            old(self).wf(),
        ensures
            final(self).wf(),
            final(self).sv() == fetch16_spec(old(self).sv()).0,
            r == fetch16_spec(old(self).sv()).1,
    {
        let pc = self.registers.pc;
        self.registers.pc = pc.wrapping_add(2);
        let r = self.mmu.read16(pc);
        proof {
            assert(self.sv() =~~= fetch16_spec(old(self).sv()).0);
        }
        r
    }

    /// Pushes a 16-bit value: SP drops by two first, then the value lands
    /// at the new SP.
    pub fn push(&mut self, value: u16)
        requires
            old(self).wf(),
        ensures
            final(self).wf(),
            final(self).sv() == push_spec(old(self).sv(), value),
    {
        let sp = self.registers.sp.wrapping_sub(2);
        self.registers.sp = sp;
        self.mmu.write16(sp, value);
        proof {
            assert(self.sv() =~~= push_spec(old(self).sv(), value));
        }
    }

    /// Pops a 16-bit value from SP, which then rises by two.
    pub fn pop(&mut self) -> (r: u16)
        requires
            old(self).wf(),
        ensures
            final(self).wf(),
            final(self).sv() == pop_spec(old(self).sv()).0,
            r == pop_spec(old(self).sv()).1,
    {
        let sp = self.registers.sp;
        let r = self.mmu.read16(sp);
        self.registers.sp = sp.wrapping_add(2);
        proof {
            assert(self.sv() =~~= pop_spec(old(self).sv()).0);
        }
        r
    }

    /// A relative jump: the signed operand is always fetched; when the
    /// condition holds it is added to the advanced PC. Reports whether the
    /// jump was taken.
    pub fn jr(&mut self, condition: bool) -> (taken: bool)
        requires
            old(self).wf(),
        ensures
            final(self).wf(),
            taken == condition,
            ({
                let fetched = fetch8_spec(old(self).sv());
                final(self).sv() == (if condition {
                    SysV {
                        regs: Registers {
                            pc: fetched.0.regs.pc.wrapping_add(sext16(fetched.1)),
                            ..fetched.0.regs
                        },
                        ..fetched.0
                    }
                } else {
                    fetched.0
                })
            }),
    {
        let e = self.fetch8();
        if !condition {
            return false;
        }
        let offset = crate::num::sign_extend(e);
        self.registers.pc = self.registers.pc.wrapping_add(offset);
        proof {
            let fetched = fetch8_spec(old(self).sv());
            assert(self.sv() =~~= (SysV {
                regs: Registers {
                    pc: fetched.0.regs.pc.wrapping_add(sext16(fetched.1)),
                    ..fetched.0.regs
                },
                ..fetched.0
            }));
        }
        true
    }

    /// Services one interrupt: push PC, jump to the vector, clear the
    /// serviced IF bit, wake, and drop IME.
    fn interrupt(&mut self, mask: u8)
        requires
            old(self).wf(),
            valid_interrupt(mask),
        ensures
            final(self).wf(),
            final(self).sv() == service_spec(old(self).sv(), mask),
    {
        let pc = self.registers.pc;
        self.push(pc);
        self.registers.pc = match handler_address(mask) {
            Ok(addr) => addr,
            Err(_) => 0,
        };
        self.mmu.iflag.value = self.mmu.iflag.value & !mask;
        self.halted = false;
        self.interrupts.ime = false;
        proof {
            assert(self.sv() =~~= service_spec(old(self).sv(), mask));
        }
    }

    /// One step of the machine, as `step_rel` states it: advance the EI/DI
    /// pipelines, then service, idle, or execute, charging the exact
    /// T-cycle cost of whichever happened.
    pub fn step(&mut self) -> (r: Result<(), Error>)
        requires
            old(self).wf(),
        ensures
            final(self).wf(),
            step_rel(old(self).sv(), final(self).sv(), r),
    {
        self.interrupts.update();
        let req = self.interrupts.requested(
            self.halted,
            self.mmu.ienable.value,
            self.mmu.iflag.value,
        );
        if let Some(mask) = req {
            if self.interrupts.ime {
                self.interrupt(mask);
                self.ticks(16);
                return Ok(());
            }
        }
        if self.halted {
            self.ticks(4);
            if self.mmu.iflag.value != 0 {
                self.halted = false;
            }
            return Ok(());
        }
        match self.next() {
            Ok(t) => {
                self.ticks(t);
                Ok(())
            },
            Err(e) => Err(e),
        }
    }
}

/// HALT wake: while halted with IME off, any set IF bit makes the very
/// next step clear `halted` without running a handler — the registers,
/// PC and SP included, do not move.
pub proof fn lemma_halt_wake(pre: SysV, post: SysV, r: Result<(), Error>)
    requires
        step_rel(pre, post, r),
        pre.halted,
        !ints_update(pre.ints).ime,
        pre.mem.iflag != 0,
    ensures
        !post.halted,
        post.regs == pre.regs,
        r == Ok::<(), Error>(()),
{
    let f = pre.mem.iflag;
    assert(f != 0 ==> (f | 0x04u8) != 0) by (bit_vector);
}

/// HALT service: while halted with IME on, an enabled-and-pending
/// interrupt is serviced by the very next step: the CPU wakes, IME drops,
/// and PC lands on that interrupt's handler vector.
pub proof fn lemma_halt_service(pre: SysV, post: SysV, r: Result<(), Error>, mask: u8)
    requires
        step_rel(pre, post, r),
        pre.halted,
        ints_update(pre.ints).ime,
        requested_spec(ints_update(pre.ints), pre.halted, pre.mem.ie, pre.mem.iflag) == Some(
            mask,
        ),
    ensures
        !post.halted,
        !post.ints.ime,
        post.regs.pc == handler_address_spec(mask),
        post.cycles == pre.cycles.wrapping_add(16),
        r == Ok::<(), Error>(()),
{
}

/// Cycle accounting: when a step executes an instruction (nothing is
/// serviced, the CPU is not halted, the opcode is legal), the tally grows
/// by exactly the cost `base_spec` publishes for that opcode.
pub proof fn lemma_step_charges_published_cost(pre: SysV, post: SysV, r: Result<(), Error>)
    requires
        step_rel(pre, post, r),
        !pre.halted,
        requested_spec(
            ints_update(pre.ints),
            pre.halted,
            pre.mem.ie,
            pre.mem.iflag,
        ) is None,
        ({
            let s = SysV { ints: ints_update(pre.ints), ..pre };
            crate::exec::base_spec(fetch8_spec(s).0, fetch8_spec(s).1) is Some
        }),
    ensures
        ({
            let s = SysV { ints: ints_update(pre.ints), ..pre };
            let st = crate::exec::base_spec(fetch8_spec(s).0, fetch8_spec(s).1).unwrap();
            post.cycles == pre.cycles.wrapping_add(st.t as u64)
        }),
{
}

/// The low nibble of F reads back as zero after every step: no service,
/// idle or instruction ever dirties it.
pub proof fn lemma_step_keeps_flags_clean(pre: SysV, post: SysV, r: Result<(), Error>)
    requires
        step_rel(pre, post, r),
        crate::registers::flags_clean(pre.regs.f),
    ensures
        crate::registers::flags_clean(post.regs.f),
{
    let s = SysV { ints: ints_update(pre.ints), ..pre };
    match requested_spec(s.ints, s.halted, s.mem.ie, s.mem.iflag) {
        Some(_) => {
        },
        None => {
            if !s.halted {
                let oped = fetch8_spec(s);
                crate::exec::lemma_instructions_keep_flags_clean(oped.0, oped.1);
            }
        },
    }
}

/// A timer overflow inside one charge latches the TIMER bit into IF and
/// drains the pending flag, within that same charge.
pub proof fn lemma_tick_latches_timer_irq(s: SysV, n: nat)
    requires
        timer_ticks(s.mem.tmr, n).interrupt,
    ensures
        sys_tick(s, n).mem.iflag & TIMER == TIMER,
        !sys_tick(s, n).mem.tmr.interrupt,
{
    let f = s.mem.iflag;
    assert((f | 0x04u8) & 0x04u8 == 0x04u8) by (bit_vector);
}

/// Writing one RAM byte and reading it straight back returns that byte,
/// and leaves every other address as it was.
pub proof fn lemma_ram_write_read(m: MemV, a: u16, v: u8, b: u16)
    requires
        m.wram.len() == 0x2000,
        m.hram.len() == 0x80,
        (0xC000 <= a && a < 0xE000) || (0xFF80 <= a && a < 0xFFFF),
    ensures
        mem_read8(mem_write8(m, a, v), a) == v,
        b != a ==> mem_read8(mem_write8(m, a, v), b) == mem_read8(m, b),
{
}

/// What servicing an interrupt leaves behind, with the stack in RAM: the
/// serviced bit is clear in IF, IME is false, PC sits at the handler
/// vector, SP has dropped by two, and the return address lies little-endian
/// at the new SP.
pub proof fn lemma_service_effects(s: SysV, mask: u8)
    requires
        valid_interrupt(mask),
        s.mem.wram.len() == 0x2000,
        s.mem.hram.len() == 0x80,
        ({
            let sp2 = s.regs.sp.wrapping_sub(2);
            ((0xC000 <= sp2 && sp2 < 0xE000) || (0xFF80 <= sp2 && sp2 < 0xFFFF)) && ((0xC000 <= (
            sp2.wrapping_add(1)) && sp2.wrapping_add(1) < 0xE000) || (0xFF80 <= (sp2.wrapping_add(
                1,
            )) && sp2.wrapping_add(1) < 0xFFFF))
        }),
    ensures
        service_spec(s, mask).mem.iflag & mask == 0,
        !service_spec(s, mask).ints.ime,
        !service_spec(s, mask).halted,
        service_spec(s, mask).regs.pc == handler_address_spec(mask),
        service_spec(s, mask).regs.sp == s.regs.sp.wrapping_sub(2),
        mem_read8(service_spec(s, mask).mem, s.regs.sp.wrapping_sub(2)) == lo8(s.regs.pc),
        mem_read8(service_spec(s, mask).mem, s.regs.sp.wrapping_sub(2).wrapping_add(1)) == hi8(
            s.regs.pc,
        ),
    {
        let sp2 = s.regs.sp.wrapping_sub(2);
        let sp3 = sp2.wrapping_add(1);
        let iflag1 = mem_write16(s.mem, sp2, s.regs.pc).iflag;
        assert(iflag1 & !mask & mask == 0) by (bit_vector);
        lemma_ram_write_read(s.mem, sp2, lo8(s.regs.pc), sp3);
        lemma_ram_write_read(mem_write8(s.mem, sp2, lo8(s.regs.pc)), sp3, hi8(s.regs.pc), sp2);
    }

} // verus!
