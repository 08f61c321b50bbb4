//! Core of a DMG/MGB hand-held system: an 8-bit CPU with its register file,
//! a memory-mapped bus, an interrupt controller, a divider/timer peripheral,
//! and a cartridge header decoder.
use vstd::prelude::*;

pub mod alu;
pub mod cartridge;
pub mod cpu;
pub mod exec;
pub mod interrupts;
pub mod mmu;
pub mod num;
pub mod registers;
pub mod serial;
pub mod timer;

verus! {

/// Fatal conditions surfaced to the host unchanged; nothing is retried
/// or recovered, the step loop just stops.
#[derive(Debug, Clone, Copy, PartialEq, Eq)]
pub enum Error {
    InvalidCartridgeKind(u8),
    InvalidOldLicenseeCode(u8),
    InvalidNewLicenseeCode(char, char),
    CPUNotSupported(crate::cpu::Model),
    IllegalInstruction(u8),
    InvalidInterrupt(u8),
}

} // verus!
