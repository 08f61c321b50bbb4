//! Exercises of the CPU's arithmetic-logic helpers, flag by flag.
use reb_gb::cartridge::Cartridge;
use reb_gb::cpu::{Model, CPU};
use reb_gb::registers::Flags;

fn fresh_cpu() -> CPU {
    CPU::new(Model::DMG, Cartridge::default())
}

#[test]
fn test_inc8() {
    let mut cpu = fresh_cpu();
    let result = cpu.inc8(0x00);
    assert_eq!(result, 0x01);
    assert_eq!(cpu.registers.flag(Flags::Z), false, "flag Z");
    assert_eq!(cpu.registers.flag(Flags::N), false, "flag N");
    assert_eq!(cpu.registers.flag(Flags::H), false, "flag H");
}

#[test]
fn test_inc8_carry() {
    let mut cpu = fresh_cpu();
    let result = cpu.inc8(0x0F);
    assert_eq!(result, 0x10);
    assert_eq!(cpu.registers.flag(Flags::Z), false, "flag Z");
    assert_eq!(cpu.registers.flag(Flags::N), false, "flag N");
    assert_eq!(cpu.registers.flag(Flags::H), true, "flag H");
}

#[test]
fn test_inc8_wrap() {
    let mut cpu = fresh_cpu();
    let result = cpu.inc8(0xFF);
    assert_eq!(result, 0x00);
    assert_eq!(cpu.registers.flag(Flags::Z), true, "flag Z");
    assert_eq!(cpu.registers.flag(Flags::N), false, "flag N");
    assert_eq!(cpu.registers.flag(Flags::H), true, "flag H");
}

#[test]
fn test_dec8() {
    let mut cpu = fresh_cpu();
    let result = cpu.dec8(0x02);
    assert_eq!(result, 0x01);
    assert_eq!(cpu.registers.flag(Flags::Z), false, "flag Z");
    assert_eq!(cpu.registers.flag(Flags::N), true, "flag N");
    assert_eq!(cpu.registers.flag(Flags::H), false, "flag H");
}

#[test]
fn test_dec8_carry() {
    let mut cpu = fresh_cpu();
    let result = cpu.dec8(0x10);
    assert_eq!(result, 0x0F);
    assert_eq!(cpu.registers.flag(Flags::Z), false, "flag Z");
    assert_eq!(cpu.registers.flag(Flags::N), true, "flag N");
    assert_eq!(cpu.registers.flag(Flags::H), true, "flag H");
}

#[test]
fn test_dec8_zero() {
    let mut cpu = fresh_cpu();
    let result = cpu.dec8(0x01);
    assert_eq!(result, 0x00);
    assert_eq!(cpu.registers.flag(Flags::Z), true, "flag Z");
    assert_eq!(cpu.registers.flag(Flags::N), true, "flag N");
    assert_eq!(cpu.registers.flag(Flags::H), false, "flag H");
}

#[test]
fn test_dec8_wrap() {
    let mut cpu = fresh_cpu();
    let result = cpu.dec8(0x00);
    assert_eq!(result, 0xFF);
    assert_eq!(cpu.registers.flag(Flags::Z), false, "flag Z");
    assert_eq!(cpu.registers.flag(Flags::N), true, "flag N");
    assert_eq!(cpu.registers.flag(Flags::H), true, "flag H");
}

#[test]
fn test_add8() {
    let mut cpu = fresh_cpu();
    cpu.registers.a = 0x01;
    cpu.add8(0x01);
    assert_eq!(cpu.registers.a, 0x02);
    assert_eq!(cpu.registers.flag(Flags::Z), false, "flag Z");
    assert_eq!(cpu.registers.flag(Flags::N), false, "flag N");
    assert_eq!(cpu.registers.flag(Flags::H), false, "flag H");
    assert_eq!(cpu.registers.flag(Flags::C), false, "flag C");
}

#[test]
fn test_add8_half_carry() {
    let mut cpu = fresh_cpu();
    cpu.registers.a = 0x0F;
    cpu.add8(0x01);
    assert_eq!(cpu.registers.a, 0x10);
    assert_eq!(cpu.registers.flag(Flags::Z), false, "flag Z");
    assert_eq!(cpu.registers.flag(Flags::N), false, "flag N");
    assert_eq!(cpu.registers.flag(Flags::H), true, "flag H");
    assert_eq!(cpu.registers.flag(Flags::C), false, "flag C");
}

#[test]
fn test_add8_carry() {
    let mut cpu = fresh_cpu();
    cpu.registers.a = 0xFF;
    cpu.add8(0x01);
    assert_eq!(cpu.registers.a, 0x00);
    assert_eq!(cpu.registers.flag(Flags::Z), true, "flag Z");
    assert_eq!(cpu.registers.flag(Flags::N), false, "flag N");
    assert_eq!(cpu.registers.flag(Flags::H), true, "flag H");
    assert_eq!(cpu.registers.flag(Flags::C), true, "flag C");
}

#[test]
fn test_add8_wrap() {
    let mut cpu = fresh_cpu();
    cpu.registers.a = 0xFF;
    cpu.add8(0x01);
    assert_eq!(cpu.registers.a, 0x00);
    assert_eq!(cpu.registers.flag(Flags::Z), true, "flag Z");
    assert_eq!(cpu.registers.flag(Flags::N), false, "flag N");
    assert_eq!(cpu.registers.flag(Flags::H), true, "flag H");
    assert_eq!(cpu.registers.flag(Flags::C), true, "flag C");
}

#[test]
fn test_adc8() {
    let mut cpu = fresh_cpu();
    cpu.registers.a = 0x01;
    cpu.registers.set_flag(Flags::C, true);
    cpu.adc8(0x01);
    assert_eq!(cpu.registers.a, 0x03);
    assert_eq!(cpu.registers.flag(Flags::Z), false, "flag Z");
    assert_eq!(cpu.registers.flag(Flags::N), false, "flag N");
    assert_eq!(cpu.registers.flag(Flags::H), false, "flag H");
    assert_eq!(cpu.registers.flag(Flags::C), false, "flag C");
}

#[test]
fn test_adc8_wrapping() {
    let mut cpu = fresh_cpu();
    cpu.registers.a = 0xFE;
    cpu.registers.set_flag(Flags::C, true);
    cpu.adc8(0x01);
    assert_eq!(cpu.registers.a, 0x00);
    assert_eq!(cpu.registers.flag(Flags::Z), true, "flag Z");
    assert_eq!(cpu.registers.flag(Flags::N), false, "flag N");
    assert_eq!(cpu.registers.flag(Flags::H), true, "flag H");
    assert_eq!(cpu.registers.flag(Flags::C), true, "flag C");
}

#[test]
fn test_sub8() {
    let mut cpu = fresh_cpu();
    cpu.registers.a = 0x01;
    cpu.sub8(0x01);
    assert_eq!(cpu.registers.a, 0x00);
    assert_eq!(cpu.registers.flag(Flags::Z), true, "flag Z");
    assert_eq!(cpu.registers.flag(Flags::N), true, "flag N");
    assert_eq!(cpu.registers.flag(Flags::H), false, "flag H");
    assert_eq!(cpu.registers.flag(Flags::C), false, "flag C");
}

#[test]
fn test_sub8_half_borrow() {
    let mut cpu = fresh_cpu();
    cpu.registers.a = 0x10;
    cpu.sub8(0x01);
    assert_eq!(cpu.registers.a, 0x0F);
    assert_eq!(cpu.registers.flag(Flags::Z), false, "flag Z");
    assert_eq!(cpu.registers.flag(Flags::N), true, "flag N");
    assert_eq!(cpu.registers.flag(Flags::H), true, "flag H");
    assert_eq!(cpu.registers.flag(Flags::C), false, "flag C");
}

#[test]
fn test_sub8_borrow() {
    let mut cpu = fresh_cpu();
    cpu.registers.a = 0x00;
    cpu.sub8(0x01);
    assert_eq!(cpu.registers.a, 0xFF);
    assert_eq!(cpu.registers.flag(Flags::Z), false, "flag Z");
    assert_eq!(cpu.registers.flag(Flags::N), true, "flag N");
    assert_eq!(cpu.registers.flag(Flags::H), true, "flag H");
    assert_eq!(cpu.registers.flag(Flags::C), true, "flag C");
}

#[test]
fn test_sbc8() {
    let mut cpu = fresh_cpu();
    cpu.registers.a = 0x02;
    cpu.registers.set_flag(Flags::C, true);
    cpu.sbc8(0x01);
    assert_eq!(cpu.registers.a, 0x00);
    assert_eq!(cpu.registers.flag(Flags::Z), true, "flag Z");
    assert_eq!(cpu.registers.flag(Flags::N), true, "flag N");
    assert_eq!(cpu.registers.flag(Flags::H), false, "flag H");
    assert_eq!(cpu.registers.flag(Flags::C), false, "flag C");
}

#[test]
fn test_sbc8_wrapping() {
    let mut cpu = fresh_cpu();
    cpu.registers.a = 0x01;
    cpu.registers.set_flag(Flags::C, true);
    cpu.sbc8(0x01);
    assert_eq!(cpu.registers.a, 0xFF);
    assert_eq!(cpu.registers.flag(Flags::Z), false, "flag Z");
    assert_eq!(cpu.registers.flag(Flags::N), true, "flag N");
    assert_eq!(cpu.registers.flag(Flags::H), true, "flag H");
    assert_eq!(cpu.registers.flag(Flags::C), true, "flag C");
}

#[test]
fn test_and8() {
    let mut cpu = fresh_cpu();
    cpu.registers.a = 0x0F;
    cpu.and8(0x0A);
    assert_eq!(cpu.registers.a, 0x0A);
    assert_eq!(cpu.registers.flag(Flags::Z), false, "flag Z");
    assert_eq!(cpu.registers.flag(Flags::N), false, "flag N");
    assert_eq!(cpu.registers.flag(Flags::H), true, "flag H");
    assert_eq!(cpu.registers.flag(Flags::C), false, "flag C");
}

#[test]
fn test_and8_zero() {
    let mut cpu = fresh_cpu();
    cpu.registers.a = 0x0F;
    cpu.and8(0xF0);
    assert_eq!(cpu.registers.a, 0x00);
    assert_eq!(cpu.registers.flag(Flags::Z), true, "flag Z");
    assert_eq!(cpu.registers.flag(Flags::N), false, "flag N");
    assert_eq!(cpu.registers.flag(Flags::H), true, "flag H");
    assert_eq!(cpu.registers.flag(Flags::C), false, "flag C");
}

#[test]
fn test_xor8() {
    let mut cpu = fresh_cpu();
    cpu.registers.a = 0xF0;
    cpu.xor8(0x0F);
    assert_eq!(cpu.registers.a, 0xFF);
    assert_eq!(cpu.registers.flag(Flags::Z), false, "flag Z");
    assert_eq!(cpu.registers.flag(Flags::N), false, "flag N");
    assert_eq!(cpu.registers.flag(Flags::H), false, "flag H");
    assert_eq!(cpu.registers.flag(Flags::C), false, "flag C");
}

#[test]
fn test_xor8_zero() {
    let mut cpu = fresh_cpu();
    cpu.registers.a = 0xF0;
    cpu.xor8(0xF0);
    assert_eq!(cpu.registers.a, 0x00);
    assert_eq!(cpu.registers.flag(Flags::Z), true, "flag Z");
    assert_eq!(cpu.registers.flag(Flags::N), false, "flag N");
    assert_eq!(cpu.registers.flag(Flags::H), false, "flag H");
    assert_eq!(cpu.registers.flag(Flags::C), false, "flag C");
}

#[test]
fn test_or8() {
    let mut cpu = fresh_cpu();
    cpu.registers.a = 0xFF;
    cpu.or8(0xF0);
    assert_eq!(cpu.registers.a, 0xFF);
    assert_eq!(cpu.registers.flag(Flags::Z), false, "flag Z");
    assert_eq!(cpu.registers.flag(Flags::N), false, "flag N");
    assert_eq!(cpu.registers.flag(Flags::H), false, "flag H");
    assert_eq!(cpu.registers.flag(Flags::C), false, "flag C");
}

#[test]
fn test_or8_zero() {
    let mut cpu = fresh_cpu();
    cpu.registers.a = 0x00;
    cpu.or8(0x00);
    assert_eq!(cpu.registers.a, 0x00);
    assert_eq!(cpu.registers.flag(Flags::Z), true, "flag Z");
    assert_eq!(cpu.registers.flag(Flags::N), false, "flag N");
    assert_eq!(cpu.registers.flag(Flags::H), false, "flag H");
    assert_eq!(cpu.registers.flag(Flags::C), false, "flag C");
}

#[test]
fn test_cp8() {
    let mut cpu = fresh_cpu();
    cpu.registers.a = 0x01;
    cpu.cp8(0x01);
    assert_eq!(cpu.registers.a, 0x01);
    assert_eq!(cpu.registers.flag(Flags::Z), true, "flag Z");
    assert_eq!(cpu.registers.flag(Flags::N), true, "flag N");
    assert_eq!(cpu.registers.flag(Flags::H), false, "flag H");
    assert_eq!(cpu.registers.flag(Flags::C), false, "flag C");
}

#[test]
fn test_cp8_half_borrow() {
    let mut cpu = fresh_cpu();
    cpu.registers.a = 0x10;
    cpu.cp8(0x01);
    assert_eq!(cpu.registers.a, 0x10);
    assert_eq!(cpu.registers.flag(Flags::Z), false, "flag Z");
    assert_eq!(cpu.registers.flag(Flags::N), true, "flag N");
    assert_eq!(cpu.registers.flag(Flags::H), true, "flag H");
    assert_eq!(cpu.registers.flag(Flags::C), false, "flag C");
}

#[test]
fn test_cp8_borrow() {
    let mut cpu = fresh_cpu();
    cpu.registers.a = 0x00;
    cpu.cp8(0x01);
    assert_eq!(cpu.registers.a, 0x00);
    assert_eq!(cpu.registers.flag(Flags::Z), false, "flag Z");
    assert_eq!(cpu.registers.flag(Flags::N), true, "flag N");
    assert_eq!(cpu.registers.flag(Flags::H), true, "flag H");
    assert_eq!(cpu.registers.flag(Flags::C), true, "flag C");
}

#[test]
fn test_add16() {
    let mut cpu = fresh_cpu();
    cpu.registers.set_hl(0x1234);
    cpu.add16(0x5678);
    assert_eq!(cpu.registers.hl(), 0x68AC);
    assert_eq!(cpu.registers.flag(Flags::N), false, "flag N");
    assert_eq!(cpu.registers.flag(Flags::H), false, "flag H");
    assert_eq!(cpu.registers.flag(Flags::C), false, "flag C");
}

#[test]
fn test_add16_half_carry() {
    let mut cpu = fresh_cpu();
    cpu.registers.set_hl(0x0FFF);
    cpu.add16(0x0001);
    assert_eq!(cpu.registers.hl(), 0x1000);
    assert_eq!(cpu.registers.flag(Flags::N), false, "flag N");
    assert_eq!(cpu.registers.flag(Flags::H), true, "flag H");
    assert_eq!(cpu.registers.flag(Flags::C), false, "flag C");
}

#[test]
fn test_add16_full_carry() {
    let mut cpu = fresh_cpu();
    cpu.registers.set_hl(0xFFFF);
    cpu.add16(0x0001);
    assert_eq!(cpu.registers.hl(), 0x0000);
    assert_eq!(cpu.registers.flag(Flags::N), false, "flag N");
    assert_eq!(cpu.registers.flag(Flags::H), true, "flag H");
    assert_eq!(cpu.registers.flag(Flags::C), true, "flag C");
}

#[test]
fn test_rlc() {
    let mut cpu = fresh_cpu();
    let result = cpu.rlc(0x85);
    assert_eq!(result, 0x0B);
    assert_eq!(cpu.registers.flag(Flags::Z), false, "flag Z");
    assert_eq!(cpu.registers.flag(Flags::N), false, "flag N");
    assert_eq!(cpu.registers.flag(Flags::H), false, "flag H");
    assert_eq!(cpu.registers.flag(Flags::C), true, "flag C");
}

#[test]
fn test_rlc_zero() {
    let mut cpu = fresh_cpu();
    let result = cpu.rlc(0x00);
    assert_eq!(result, 0x00);
    assert_eq!(cpu.registers.flag(Flags::Z), true, "flag Z");
    assert_eq!(cpu.registers.flag(Flags::N), false, "flag N");
    assert_eq!(cpu.registers.flag(Flags::H), false, "flag H");
    assert_eq!(cpu.registers.flag(Flags::C), false, "flag C");
}

#[test]
fn test_rl() {
    let mut cpu = fresh_cpu();
    cpu.registers.set_flag(Flags::C, true);
    let result = cpu.rl(0x85);
    assert_eq!(result, 0x0B);
    assert_eq!(cpu.registers.flag(Flags::Z), false, "flag Z");
    assert_eq!(cpu.registers.flag(Flags::N), false, "flag N");
    assert_eq!(cpu.registers.flag(Flags::H), false, "flag H");
    assert_eq!(cpu.registers.flag(Flags::C), true, "flag C");
}

#[test]
fn test_rl_zero() {
    let mut cpu = fresh_cpu();
    let result = cpu.rl(0x00);
    assert_eq!(result, 0x00);
    assert_eq!(cpu.registers.flag(Flags::Z), true, "flag Z");
    assert_eq!(cpu.registers.flag(Flags::N), false, "flag N");
    assert_eq!(cpu.registers.flag(Flags::H), false, "flag H");
    assert_eq!(cpu.registers.flag(Flags::C), false, "flag C");
}

#[test]
fn test_rrc() {
    let mut cpu = fresh_cpu();
    let result = cpu.rrc(0x85);
    assert_eq!(result, 0xC2);
    assert_eq!(cpu.registers.flag(Flags::Z), false, "flag Z");
    assert_eq!(cpu.registers.flag(Flags::N), false, "flag N");
    assert_eq!(cpu.registers.flag(Flags::H), false, "flag H");
    assert_eq!(cpu.registers.flag(Flags::C), true, "flag C");
}

#[test]
fn test_rrc_zero() {
    let mut cpu = fresh_cpu();
    let result = cpu.rrc(0x00);
    assert_eq!(result, 0x00);
    assert_eq!(cpu.registers.flag(Flags::Z), true, "flag Z");
    assert_eq!(cpu.registers.flag(Flags::N), false, "flag N");
    assert_eq!(cpu.registers.flag(Flags::H), false, "flag H");
    assert_eq!(cpu.registers.flag(Flags::C), false, "flag C");
}

#[test]
fn test_rr() {
    let mut cpu = fresh_cpu();
    cpu.registers.set_flag(Flags::C, true);
    let result = cpu.rr(0x85);
    assert_eq!(result, 0xC2);
    assert_eq!(cpu.registers.flag(Flags::Z), false, "flag Z");
    assert_eq!(cpu.registers.flag(Flags::N), false, "flag N");
    assert_eq!(cpu.registers.flag(Flags::H), false, "flag H");
    assert_eq!(cpu.registers.flag(Flags::C), true, "flag C");
}

#[test]
fn test_rr_zero() {
    let mut cpu = fresh_cpu();
    let result = cpu.rr(0x00);
    assert_eq!(result, 0x00);
    assert_eq!(cpu.registers.flag(Flags::Z), true, "flag Z");
    assert_eq!(cpu.registers.flag(Flags::N), false, "flag N");
    assert_eq!(cpu.registers.flag(Flags::H), false, "flag H");
    assert_eq!(cpu.registers.flag(Flags::C), false, "flag C");
}

#[test]
fn test_daa_none() {
    let mut cpu = fresh_cpu();
    cpu.registers.a = 0x10;
    cpu.registers.set_flag(Flags::N, false);
    cpu.registers.set_flag(Flags::H, false);
    cpu.registers.set_flag(Flags::C, false);
    cpu.daa();
    assert_eq!(cpu.registers.a, 0x10);
    assert_eq!(cpu.registers.flag(Flags::Z), false, "flag Z");
    assert_eq!(cpu.registers.flag(Flags::N), false, "flag N");
    assert_eq!(cpu.registers.flag(Flags::H), false, "flag H");
    assert_eq!(cpu.registers.flag(Flags::C), false, "flag C");
}

#[test]
fn test_daa_add_half_carry() {
    let mut cpu = fresh_cpu();
    cpu.registers.a = 0x0A;
    cpu.registers.set_flag(Flags::N, false);
    cpu.registers.set_flag(Flags::H, true);
    cpu.registers.set_flag(Flags::C, false);
    cpu.daa();
    assert_eq!(cpu.registers.a, 0x10);
    assert_eq!(cpu.registers.flag(Flags::Z), false, "flag Z");
    assert_eq!(cpu.registers.flag(Flags::N), false, "flag N");
    assert_eq!(cpu.registers.flag(Flags::H), false, "flag H");
    assert_eq!(cpu.registers.flag(Flags::C), false, "flag C");
}

#[test]
fn test_daa_add_carry() {
    let mut cpu = fresh_cpu();
    cpu.registers.a = 0x9B;
    cpu.registers.set_flag(Flags::N, false);
    cpu.registers.set_flag(Flags::H, false);
    cpu.registers.set_flag(Flags::C, true);
    cpu.daa();
    assert_eq!(cpu.registers.a, 0x01);
    assert_eq!(cpu.registers.flag(Flags::Z), false, "flag Z");
    assert_eq!(cpu.registers.flag(Flags::N), false, "flag N");
    assert_eq!(cpu.registers.flag(Flags::H), false, "flag H");
    assert_eq!(cpu.registers.flag(Flags::C), true, "flag C");
}

#[test]
fn test_daa_sub_half_carry() {
    let mut cpu = fresh_cpu();
    cpu.registers.a = 0x0C;
    cpu.registers.set_flag(Flags::N, true);
    cpu.registers.set_flag(Flags::H, true);
    cpu.registers.set_flag(Flags::C, false);
    cpu.daa();
    assert_eq!(cpu.registers.a, 0x06);
    assert_eq!(cpu.registers.flag(Flags::Z), false, "flag Z");
    assert_eq!(cpu.registers.flag(Flags::N), true, "flag N");
    assert_eq!(cpu.registers.flag(Flags::H), false, "flag H");
    assert_eq!(cpu.registers.flag(Flags::C), false, "flag C");
}

#[test]
fn test_daa_sub_carry() {
    let mut cpu = fresh_cpu();
    cpu.registers.a = 0xC4;
    cpu.registers.set_flag(Flags::N, true);
    cpu.registers.set_flag(Flags::H, false);
    cpu.registers.set_flag(Flags::C, true);
    cpu.daa();
    assert_eq!(cpu.registers.a, 0x64);
    assert_eq!(cpu.registers.flag(Flags::Z), false, "flag Z");
    assert_eq!(cpu.registers.flag(Flags::N), true, "flag N");
    assert_eq!(cpu.registers.flag(Flags::H), false, "flag H");
    assert_eq!(cpu.registers.flag(Flags::C), true, "flag C");
}

#[test]
fn test_sra() {
    let mut cpu = fresh_cpu();
    let result = cpu.sra(0x85);
    assert_eq!(result, 0xC2);
    assert_eq!(cpu.registers.flag(Flags::Z), false, "flag Z");
    assert_eq!(cpu.registers.flag(Flags::N), false, "flag N");
    assert_eq!(cpu.registers.flag(Flags::H), false, "flag H");
    assert_eq!(cpu.registers.flag(Flags::C), true, "flag C");
}

#[test]
fn test_sra_zero() {
    let mut cpu = fresh_cpu();
    let result = cpu.sra(0x00);
    assert_eq!(result, 0x00);
    assert_eq!(cpu.registers.flag(Flags::Z), true, "flag Z");
    assert_eq!(cpu.registers.flag(Flags::N), false, "flag N");
    assert_eq!(cpu.registers.flag(Flags::H), false, "flag H");
    assert_eq!(cpu.registers.flag(Flags::C), false, "flag C");
}

#[test]
fn test_sla() {
    let mut cpu = fresh_cpu();
    let result = cpu.sla(0x85);
    assert_eq!(result, 0x0A);
    assert_eq!(cpu.registers.flag(Flags::Z), false, "flag Z");
    assert_eq!(cpu.registers.flag(Flags::N), false, "flag N");
    assert_eq!(cpu.registers.flag(Flags::H), false, "flag H");
    assert_eq!(cpu.registers.flag(Flags::C), true, "flag C");
}

#[test]
fn test_sla_zero() {
    let mut cpu = fresh_cpu();
    let result = cpu.sla(0x00);
    assert_eq!(result, 0x00);
    assert_eq!(cpu.registers.flag(Flags::Z), true, "flag Z");
    assert_eq!(cpu.registers.flag(Flags::N), false, "flag N");
    assert_eq!(cpu.registers.flag(Flags::H), false, "flag H");
    assert_eq!(cpu.registers.flag(Flags::C), false, "flag C");
}

#[test]
fn test_swap() {
    let mut cpu = fresh_cpu();
    let result = cpu.swap(0x85);
    assert_eq!(result, 0x58);
    assert_eq!(cpu.registers.flag(Flags::Z), false, "flag Z");
    assert_eq!(cpu.registers.flag(Flags::N), false, "flag N");
    assert_eq!(cpu.registers.flag(Flags::H), false, "flag H");
    assert_eq!(cpu.registers.flag(Flags::C), false, "flag C");
}

#[test]
fn test_swap_zero() {
    let mut cpu = fresh_cpu();
    let result = cpu.swap(0x00);
    assert_eq!(result, 0x00);
    assert_eq!(cpu.registers.flag(Flags::Z), true, "flag Z");
    assert_eq!(cpu.registers.flag(Flags::N), false, "flag N");
    assert_eq!(cpu.registers.flag(Flags::H), false, "flag H");
    assert_eq!(cpu.registers.flag(Flags::C), false, "flag C");
}

#[test]
fn test_srl() {
    let mut cpu = fresh_cpu();
    let result = cpu.srl(0x85);
    assert_eq!(result, 0x42);
    assert_eq!(cpu.registers.flag(Flags::Z), false, "flag Z");
    assert_eq!(cpu.registers.flag(Flags::N), false, "flag N");
    assert_eq!(cpu.registers.flag(Flags::H), false, "flag H");
    assert_eq!(cpu.registers.flag(Flags::C), true, "flag C");
}

#[test]
fn test_srl_zero() {
    let mut cpu = fresh_cpu();
    let result = cpu.srl(0x00);
    assert_eq!(result, 0x00);
    assert_eq!(cpu.registers.flag(Flags::Z), true, "flag Z");
    assert_eq!(cpu.registers.flag(Flags::N), false, "flag N");
    assert_eq!(cpu.registers.flag(Flags::H), false, "flag H");
    assert_eq!(cpu.registers.flag(Flags::C), false, "flag C");
}

#[test]
fn test_bit() {
    let mut cpu = fresh_cpu();
    cpu.bit(0, 0x01);
    assert_eq!(cpu.registers.flag(Flags::Z), false, "flag Z");
    assert_eq!(cpu.registers.flag(Flags::N), false, "flag N");
    assert_eq!(cpu.registers.flag(Flags::H), true, "flag H");
}

#[test]
fn test_bit_zero() {
    let mut cpu = fresh_cpu();
    cpu.bit(0, 0x00);
    assert_eq!(cpu.registers.flag(Flags::Z), true, "flag Z");
    assert_eq!(cpu.registers.flag(Flags::N), false, "flag N");
    assert_eq!(cpu.registers.flag(Flags::H), true, "flag H");
}

#[test]
fn test_res() {
    let mut cpu = fresh_cpu();
    let result = cpu.res(0, 0x01);
    assert_eq!(result, 0x00);
}

#[test]
fn test_set() {
    let mut cpu = fresh_cpu();
    let result = cpu.set(0, 0x00);
    assert_eq!(result, 0x01);
}

#[test]
fn test_push() {
    let mut cpu = fresh_cpu();
    assert_eq!(cpu.registers.sp, 0xFFFE);
    cpu.push(0x1234);
    assert_eq!(cpu.registers.sp, 0xFFFC);
    assert_eq!(cpu.mmu.read8(0xFFFC), 0x34);
    assert_eq!(cpu.mmu.read8(0xFFFD), 0x12);
    assert_eq!(cpu.mmu.read16(0xFFFC), 0x1234);
}

#[test]
fn test_pop() {
    let mut cpu = fresh_cpu();
    cpu.registers.sp = 0xFFFC;
    cpu.mmu.write16(0xFFFC, 0x1234);
    let value = cpu.pop();
    assert_eq!(value, 0x1234);
    assert_eq!(cpu.registers.sp, 0xFFFE);
}

#[test]
fn test_jr() {
    let mut cpu = fresh_cpu();
    cpu.registers.pc = 0xC000;
    cpu.mmu.write8(0xC000, 0x05);
    assert!(cpu.jr(true));
    assert_eq!(cpu.registers.pc, 0xC006);
    cpu.mmu.write8(0xC006, 0xFB);
    assert!(cpu.jr(true));
    assert_eq!(cpu.registers.pc, 0xC002);
    cpu.mmu.write8(0xC002, 0x10);
    assert!(!cpu.jr(false));
    assert_eq!(cpu.registers.pc, 0xC003);
}
