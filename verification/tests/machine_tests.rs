//! Whole-machine steps: cycle accounting, interrupt servicing, the halt
//! wake, the EI/DI delays, the timer, the bus, and the serial drain.
use reb_gb::cartridge::Cartridge;
use reb_gb::cpu::{Model, CPU};
use reb_gb::registers::Flags;
use reb_gb::Error;

const NINTENDO_LOGO: [u8; 48] = [
    0xCE, 0xED, 0x66, 0x66, 0xCC, 0x0D, 0x00, 0x0B, 0x03, 0x73, 0x00, 0x83, 0x00, 0x0C, 0x00,
    0x0D, 0x00, 0x08, 0x11, 0x1F, 0x88, 0x89, 0x00, 0x0E, 0xDC, 0xCC, 0x6E, 0xE6, 0xDD, 0xDD,
    0xD9, 0x99, 0xBB, 0xBB, 0x67, 0x63, 0x6E, 0x0E, 0xEC, 0xCC, 0xDD, 0xDC, 0x99, 0x9F, 0xBB,
    0xB9, 0x33, 0x3E,
];

fn fixture_rom() -> Vec<u8> {
    let mut rom = vec![0u8; 65536];
    rom[0x100..0x104].copy_from_slice(&[0x00, 0xc3, 0x37, 0x06]);
    rom[0x104..0x134].copy_from_slice(&NINTENDO_LOGO);
    rom[0x134..0x13E].copy_from_slice(b"CPU_INSTRS");
    rom[0x143] = 0x80;
    rom[0x147] = 0x01;
    rom[0x148] = 0x01;
    let mut checksum: u8 = 0;
    for addr in 0x134..=0x14C {
        checksum = checksum.wrapping_sub(rom[addr]).wrapping_sub(1);
    }
    rom[0x14D] = checksum;
    rom
}

#[test]
fn test_cpu_instrs() {
    let cart = Cartridge::new(fixture_rom());
    let mut _cpu = CPU::new(Model::DMG, cart);
}

fn fresh_cpu() -> CPU {
    CPU::new(Model::DMG, Cartridge::default())
}

/// Loads a short program into work RAM and points PC at it.
fn load_program(cpu: &mut CPU, program: &[u8]) {
    for (i, &b) in program.iter().enumerate() {
        cpu.mmu.write8(0xC000 + i as u16, b);
    }
    cpu.registers.pc = 0xC000;
}

#[test]
fn step_charges_published_costs() {
    // NOP is four T-cycles; the blank ROM reads as NOPs from 0x100.
    let mut cpu = fresh_cpu();
    let start = cpu.cycles;
    cpu.step().unwrap();
    assert_eq!(cpu.cycles - start, 4);
    assert_eq!(cpu.registers.pc, 0x101);

    // A taken JR NZ costs 12; not taken costs 8.
    let mut cpu = fresh_cpu();
    load_program(&mut cpu, &[0x20, 0x05]);
    cpu.registers.set_flag(Flags::Z, false);
    let start = cpu.cycles;
    cpu.step().unwrap();
    assert_eq!(cpu.cycles - start, 12);
    assert_eq!(cpu.registers.pc, 0xC007);

    let mut cpu = fresh_cpu();
    load_program(&mut cpu, &[0x20, 0x05]);
    cpu.registers.set_flag(Flags::Z, true);
    let start = cpu.cycles;
    cpu.step().unwrap();
    assert_eq!(cpu.cycles - start, 8);
    assert_eq!(cpu.registers.pc, 0xC002);

    // CALL is 24; RET is 16; PUSH 16; POP 12; a CB rotate on a register 8.
    let mut cpu = fresh_cpu();
    load_program(&mut cpu, &[0xCD, 0x50, 0xC0]);
    let start = cpu.cycles;
    cpu.step().unwrap();
    assert_eq!(cpu.cycles - start, 24);
    assert_eq!(cpu.registers.pc, 0xC050);

    let mut cpu = fresh_cpu();
    load_program(&mut cpu, &[0xCB, 0x11]);
    let start = cpu.cycles;
    cpu.step().unwrap();
    assert_eq!(cpu.cycles - start, 8);
}

#[test]
fn step_stop_is_a_four_cycle_no_op() {
    let mut cpu = fresh_cpu();
    load_program(&mut cpu, &[0x10]);
    let start = cpu.cycles;
    cpu.step().unwrap();
    assert_eq!(cpu.cycles - start, 4);
    assert_eq!(cpu.registers.pc, 0xC001);
}

#[test]
fn step_illegal_opcode_reports_and_leaves_pc_past_it() {
    let mut cpu = fresh_cpu();
    load_program(&mut cpu, &[0xD3]);
    let start = cpu.cycles;
    assert_eq!(cpu.step(), Err(Error::IllegalInstruction(0xD3)));
    assert_eq!(cpu.registers.pc, 0xC001);
    assert_eq!(cpu.cycles, start);
}

#[test]
fn step_services_highest_priority_interrupt() {
    let mut cpu = fresh_cpu();
    cpu.interrupts.ime = true;
    cpu.mmu.write8(0xFFFF, 0x05);
    cpu.mmu.write8(0xFF0F, 0x04);
    cpu.registers.pc = 0x1234;
    let start = cpu.cycles;
    cpu.step().unwrap();
    assert_eq!(cpu.registers.pc, 0x0050, "timer handler vector");
    assert_eq!(cpu.registers.sp, 0xFFFC);
    assert_eq!(cpu.mmu.read8(0xFFFC), 0x34, "return address low byte");
    assert_eq!(cpu.mmu.read8(0xFFFD), 0x12, "return address high byte");
    assert_eq!(cpu.mmu.read8(0xFF0F) & 0x04, 0, "serviced bit cleared");
    assert!(!cpu.interrupts.ime, "ime dropped");
    assert_eq!(cpu.cycles - start, 16);
}

#[test]
fn step_does_not_service_with_ime_off() {
    let mut cpu = fresh_cpu();
    cpu.mmu.write8(0xFFFF, 0x01);
    cpu.mmu.write8(0xFF0F, 0x01);
    cpu.step().unwrap();
    assert_eq!(cpu.registers.pc, 0x101, "just ran the instruction at PC");
    assert_eq!(cpu.mmu.read8(0xFF0F) & 0x01, 0x01, "request still pending");
}

#[test]
fn halt_wakes_without_service_when_ime_is_off() {
    let mut cpu = fresh_cpu();
    cpu.halted = true;
    let pc = cpu.registers.pc;
    let start = cpu.cycles;
    cpu.step().unwrap();
    assert!(cpu.halted, "stays halted while IF is clear");
    assert_eq!(cpu.cycles - start, 4);

    cpu.mmu.write8(0xFF0F, 0x08);
    cpu.step().unwrap();
    assert!(!cpu.halted, "any IF bit wakes the CPU");
    assert_eq!(cpu.registers.pc, pc, "no handler ran");
    assert_eq!(cpu.mmu.read8(0xFF0F), 0x08, "request stays pending");
}

#[test]
fn halt_service_when_ime_is_on() {
    let mut cpu = fresh_cpu();
    cpu.halted = true;
    cpu.interrupts.ime = true;
    cpu.mmu.write8(0xFFFF, 0x01);
    cpu.mmu.write8(0xFF0F, 0x01);
    cpu.step().unwrap();
    assert!(!cpu.halted);
    assert_eq!(cpu.registers.pc, 0x0040, "vblank handler vector");
}

#[test]
fn halt_opcode_halts() {
    let mut cpu = fresh_cpu();
    load_program(&mut cpu, &[0x76]);
    cpu.step().unwrap();
    assert!(cpu.halted);
    assert_eq!(cpu.registers.pc, 0xC001);
}

#[test]
fn ei_takes_effect_one_instruction_late() {
    let mut cpu = fresh_cpu();
    load_program(&mut cpu, &[0xFB, 0x00, 0xF3, 0x00, 0x00]);
    cpu.step().unwrap();  // EI
    assert!(!cpu.interrupts.ime, "EI itself leaves IME off");
    cpu.step().unwrap();  // first NOP
    assert!(!cpu.interrupts.ime, "the instruction after EI still ran with IME off");
    cpu.step().unwrap();  // DI; IME committed true before it ran
    assert!(cpu.interrupts.ime, "IME is on once the second instruction begins");
    cpu.step().unwrap();  // second NOP, still with IME on
    assert!(cpu.interrupts.ime, "DI is delayed the same way");
    cpu.step().unwrap();  // one further instruction commits the DI
    assert!(!cpu.interrupts.ime);
}

#[test]
fn reti_restores_ime_immediately() {
    let mut cpu = fresh_cpu();
    cpu.registers.sp = 0xFFFC;
    cpu.mmu.write16(0xFFFC, 0xC010);
    load_program(&mut cpu, &[0xD9]);
    cpu.mmu.write8(0xC010, 0x00);
    cpu.step().unwrap();  // RETI
    assert_eq!(cpu.registers.pc, 0xC010);
    assert!(!cpu.interrupts.ime, "commit lands on the next update");
    cpu.step().unwrap();  // instruction at the return address
    assert!(cpu.interrupts.ime, "which already ran with IME on");
}

#[test]
fn timer_overflow_reloads_and_raises_irq() {
    let mut cpu = fresh_cpu();
    cpu.mmu.write8(0xFF07, 0x05);  // enable, 16 T period
    cpu.mmu.write8(0xFF06, 0xFE);  // TMA
    cpu.mmu.write8(0xFF05, 0xFF);  // TIMA
    for _ in 0..4 {
        cpu.step().unwrap();  // 4 NOPs = 16 T
    }
    assert_eq!(cpu.mmu.read8(0xFF05), 0xFE, "TIMA reloaded from TMA");
    assert_eq!(cpu.mmu.read8(0xFF0F) & 0x04, 0x04, "timer interrupt latched");
}

#[test]
fn div_advances_once_per_256_cycles() {
    let mut cpu = fresh_cpu();
    assert_eq!(cpu.mmu.read8(0xFF04), 0);
    for _ in 0..63 {
        cpu.step().unwrap();
    }
    assert_eq!(cpu.mmu.read8(0xFF04), 0, "252 T-cycles: not yet");
    cpu.step().unwrap();
    assert_eq!(cpu.mmu.read8(0xFF04), 1, "256 T-cycles: one advance");
    cpu.mmu.write8(0xFF04, 0xAB);
    assert_eq!(cpu.mmu.read8(0xFF04), 0, "any write clears DIV");
}

#[test]
fn tac_reads_back_with_fixed_high_bits() {
    let mut cpu = fresh_cpu();
    cpu.mmu.write8(0xFF07, 0x05);
    assert_eq!(cpu.mmu.read8(0xFF07), 0xFD);
    cpu.mmu.write8(0xFF07, 0x02);
    assert_eq!(cpu.mmu.read8(0xFF07), 0xFA);
}

#[test]
fn bus_io_round_trip() {
    let mut cpu = fresh_cpu();
    cpu.mmu.write8(0xC123, 0xAB);
    assert_eq!(cpu.mmu.read8(0xC123), 0xAB);
    cpu.mmu.write16(0xFF80, 0x1234);
    assert_eq!(cpu.mmu.read8(0xFF80), 0x34);
    assert_eq!(cpu.mmu.read8(0xFF81), 0x12);
    assert_eq!(cpu.mmu.read16(0xFF80), 0x1234);
}

#[test]
fn reserved_and_cartridge_writes_are_recorded_no_ops() {
    let mut cpu = fresh_cpu();
    assert_eq!(cpu.mmu.fault, None);
    cpu.mmu.write8(0x2000, 0x55);
    assert_eq!(cpu.mmu.read8(0x2000), 0x00, "ROM byte unchanged");
    assert_eq!(cpu.mmu.fault, Some(0x2000), "bank-control write recorded");
    cpu.mmu.write8(0xE000, 0x55);
    assert_eq!(cpu.mmu.read8(0xE000), 0x00, "echo RAM reads zero");
    assert_eq!(cpu.mmu.fault, Some(0xE000), "echo RAM write recorded");
    cpu.mmu.write8(0x8000, 0x55);
    assert_eq!(cpu.mmu.fault, Some(0xE000), "stub writes are not faults");
}

#[test]
fn debug_mode_pins_the_lcd_line() {
    let mut cpu = fresh_cpu();
    assert_eq!(cpu.mmu.read8(0xFF44), 0x00);
    cpu.debug_mode(true);
    assert_eq!(cpu.mmu.read8(0xFF44), 0x90);
    cpu.mmu.write8(0xFF44, 0x12);
    assert_eq!(cpu.mmu.read8(0xFF44), 0x90);
}

#[test]
fn serial_transfer_reaches_the_host() {
    let mut cpu = fresh_cpu();
    cpu.debug_mode(true);
    // The program a test cartridge runs to report progress: load the byte,
    // store it to the serial data port, then start the transfer.
    load_program(&mut cpu, &[0x3E, b'P', 0xE0, 0x01, 0x3E, 0x81, 0xE0, 0x02]);
    assert_eq!(cpu.debug_serial(), None);
    cpu.step().unwrap();
    cpu.step().unwrap();
    cpu.step().unwrap();
    cpu.step().unwrap();
    assert_eq!(cpu.debug_serial(), Some(b'P'));
    assert_eq!(cpu.mmu.read8(0xFF02), 0x00, "control byte cleared");
    assert_eq!(cpu.debug_serial(), None, "one byte per transfer");
}

#[test]
fn arithmetic_program_sets_flags() {
    // ADD A, 1 with A at 0xFF, then SUB 1 with A at 0x10.
    let mut cpu = fresh_cpu();
    load_program(&mut cpu, &[0xC6, 0x01, 0xD6, 0x01]);
    cpu.registers.a = 0xFF;
    cpu.step().unwrap();
    assert_eq!(cpu.registers.a, 0x00);
    assert!(cpu.registers.flag(Flags::Z));
    assert!(!cpu.registers.flag(Flags::N));
    assert!(cpu.registers.flag(Flags::H));
    assert!(cpu.registers.flag(Flags::C));

    cpu.registers.a = 0x10;
    cpu.step().unwrap();
    assert_eq!(cpu.registers.a, 0x0F);
    assert!(!cpu.registers.flag(Flags::Z));
    assert!(cpu.registers.flag(Flags::N));
    assert!(cpu.registers.flag(Flags::H));
    assert!(!cpu.registers.flag(Flags::C));
}

#[test]
fn pop_af_masks_the_flag_nibble() {
    let mut cpu = fresh_cpu();
    cpu.registers.sp = 0xFFFC;
    cpu.mmu.write16(0xFFFC, 0x12FF);
    load_program(&mut cpu, &[0xF1]);
    cpu.step().unwrap();
    assert_eq!(cpu.registers.a, 0x12);
    assert_eq!(cpu.registers.f, 0xF0);
    assert_eq!(cpu.registers.sp, 0xFFFE);
}

#[test]
fn sixteen_bit_loads_and_stack() {
    let mut cpu = fresh_cpu();
    load_program(&mut cpu, &[0x01, 0xCD, 0xAB, 0xC5, 0xE1]);
    cpu.step().unwrap();  // LD BC, 0xABCD
    assert_eq!(cpu.registers.bc(), 0xABCD);
    cpu.step().unwrap();  // PUSH BC
    cpu.step().unwrap();  // POP HL
    assert_eq!(cpu.registers.hl(), 0xABCD);
}

#[test]
fn ld_hl_sp_offset_flags_use_unsigned_operand_bits() {
    // LD HL, SP + (-1): the sum wraps down, and H and C come from the
    // unsigned low bits of the operand byte.
    let mut cpu = fresh_cpu();
    cpu.registers.sp = 0x0000;
    load_program(&mut cpu, &[0xF8, 0xFF]);
    cpu.step().unwrap();
    assert_eq!(cpu.registers.hl(), 0xFFFF);
    assert!(!cpu.registers.flag(Flags::H));
    assert!(!cpu.registers.flag(Flags::C));

    let mut cpu = fresh_cpu();
    cpu.registers.sp = 0x00FF;
    load_program(&mut cpu, &[0xE8, 0x01]);
    cpu.step().unwrap();  // ADD SP, 1
    assert_eq!(cpu.registers.sp, 0x0100);
    assert!(cpu.registers.flag(Flags::H));
    assert!(cpu.registers.flag(Flags::C));
}

#[test]
fn cb_bit_res_set_on_memory() {
    let mut cpu = fresh_cpu();
    cpu.mmu.write8(0xC100, 0b0000_0100);
    cpu.registers.set_hl(0xC100);
    load_program(&mut cpu, &[0xCB, 0x56, 0xCB, 0x96, 0xCB, 0xE6]);
    cpu.registers.pc = 0xC000;
    cpu.step().unwrap();  // BIT 2, (HL)
    assert!(!cpu.registers.flag(Flags::Z));
    cpu.step().unwrap();  // RES 2, (HL)
    assert_eq!(cpu.mmu.read8(0xC100), 0);
    cpu.step().unwrap();  // SET 4, (HL)
    assert_eq!(cpu.mmu.read8(0xC100), 0b0001_0000);
}
