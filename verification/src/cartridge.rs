//! The cartridge: the ROM byte buffer and the decoder for the header block
//! at 0x100..0x150 — title, kind, licensee, sizes, flags and checksums.
use vstd::prelude::*;
use crate::num::pair16;

verus! {

/// Failures while decoding header fields.
#[derive(Debug, Clone, Copy, PartialEq, Eq)]
pub enum CartridgeError {
    InvalidCartridgeKind(u8),
    InvalidOldLicenseeCode(u8),
    InvalidNewLicenseeCode(char, char),
}

/// The memory-bank-controller family the kind byte at 0x147 names.
#[derive(Debug, Clone, Copy, PartialEq, Eq)]
pub enum Kind {
    RomOnly,
    Mbc1,
    Mb1Ram,
    Mbc1RamBattery,
    Mbc2,
    Mbc2Battery,
    RomRam,
    RomRamBattery,
    Mmm01,
    Mmm01Ram,
    Mmm01RamBattery,
    Mbc3TimerBattery,
    Mbc3TimerRamBattery,
    Mbc3,
    Mbc3Ram,
    Mbc3RamBattery,
    Mbc5,
    Mbc5Ram,
    Mbc5RamBattery,
    Mbc5Rumble,
    Mbc5RumbleRam,
    Mbc5RumbleRamBattery,
    Mbc6,
    Mbc7SensorRumbleRamBattery,
    PocketCamera,
    BandaiTama5,
    Huc3,
    Huc1RamBattery,
}

/// The publisher, from the old single-byte code or the newer two-character
/// ASCII code.
#[derive(Debug, PartialEq, Eq)]
pub enum Licensee {
    /// No publisher listed (code zero).
    Unlisted,
    Old(&'static str),
    New(&'static str),
}

/// What the CGB flag byte at 0x143 says about color support.
#[derive(Debug, Clone, Copy, PartialEq, Eq)]
pub enum ColorMode {
    /// No color support declared.
    Mono,
    Supports,
    Required,
}

/// The fixed bitmap the boot ROM expects in the logo area at 0x104..0x134.
pub open spec fn nintendo_logo_spec() -> Seq<u8> {
    seq![
        0xCEu8, 0xED, 0x66, 0x66, 0xCC, 0x0D, 0x00, 0x0B, 0x03, 0x73, 0x00, 0x83, 0x00, 0x0C,
        0x00, 0x0D, 0x00, 0x08, 0x11, 0x1F, 0x88, 0x89, 0x00, 0x0E, 0xDC, 0xCC, 0x6E, 0xE6,
        0xDD, 0xDD, 0xD9, 0x99, 0xBB, 0xBB, 0x67, 0x63, 0x6E, 0x0E, 0xEC, 0xCC, 0xDD, 0xDC,
        0x99, 0x9F, 0xBB, 0xB9, 0x33, 0x3E,
    ]
}

/// How many title bytes count: the run of non-NUL bytes at the front.
pub open spec fn title_len(bytes: Seq<u8>) -> nat
    decreases bytes.len(),
{
    if bytes.len() == 0 || bytes[0] == 0 {
        0
    } else {
        (1 + title_len(bytes.skip(1))) as nat
    }
}

/// The title: the bytes at 0x134..0x144 up to the first NUL, as characters.
pub open spec fn title_spec(rom: Seq<u8>) -> Seq<char> {
    let t = rom.subrange(0x134, 0x144);
    Seq::new(title_len(t), |i: int| t[i] as char)
}

/// A run of `k` non-NUL bytes stopped by a NUL (or the end) pins the
/// title length at `k`.
proof fn lemma_title_len(bytes: Seq<u8>, k: nat)
    requires
        k <= bytes.len(),
        forall|j: int| 0 <= j < k ==> bytes[j] != 0,
        k == bytes.len() || bytes[k as int] == 0,
    ensures
        title_len(bytes) == k,
    decreases k,
{
    if k > 0 {
        lemma_title_len(bytes.skip(1), (k - 1) as nat);
    }
}

/// The running header checksum after folding `n` bytes, starting at offset
/// 0x134: each byte `b` turns `acc` into `acc - b - 1` with 8-bit wrap.
pub open spec fn hc_acc(rom: Seq<u8>, n: nat) -> u8
    decreases n,
{
    if n == 0 {
        0
    } else {
        hc_acc(rom, (n - 1) as nat).wrapping_sub(rom[0x134 + n - 1]).wrapping_sub(1)
    }
}

/// The header checksum computed over the 25 bytes at 0x134..=0x14C.
pub open spec fn header_checksum_spec(rom: Seq<u8>) -> u8 {
    hc_acc(rom, 25)
}

/// The running global checksum after the first `n` ROM bytes: a 16-bit
/// wrapping sum that skips the two stored checksum bytes at 0x14E..=0x14F.
pub open spec fn gc_acc(rom: Seq<u8>, n: nat) -> u16
    decreases n,
{
    if n == 0 {
        0
    } else {
        gc_acc(rom, (n - 1) as nat).wrapping_add(
            if n - 1 == 0x14E || n - 1 == 0x14F {
                0
            } else {
                rom[n - 1] as u16
            },
        )
    }
}

/// Two ROMs that agree on the first `n` header bytes fold to the same
/// running checksum.
proof fn lemma_hc_acc_agree(r1: Seq<u8>, r2: Seq<u8>, n: nat)
    requires
        0x134 + n <= r1.len(),
        0x134 + n <= r2.len(),
        forall|j: int| 0 <= j < n ==> #[trigger] r1[0x134 + j] == r2[0x134 + j],
    ensures
        hc_acc(r1, n) == hc_acc(r2, n),
    decreases n,
{
    if n > 0 {
        lemma_hc_acc_agree(r1, r2, (n - 1) as nat);
    }
}

/// Two ROMs whose first `n` header bytes differ in exactly one place fold
/// to different running checksums: each fold step is injective.
proof fn lemma_hc_acc_differ(r1: Seq<u8>, r2: Seq<u8>, k: nat, n: nat)
    requires
        0x134 + n <= r1.len(),
        0x134 + n <= r2.len(),
        k < n,
        forall|j: int| 0 <= j < n && j != k ==> #[trigger] r1[0x134 + j] == r2[0x134 + j],
        r1[0x134 + k as int] != r2[0x134 + k as int],
    ensures
        hc_acc(r1, n) != hc_acc(r2, n),
    decreases n,
{
    if n - 1 == k {
        lemma_hc_acc_agree(r1, r2, (n - 1) as nat);
    } else {
        lemma_hc_acc_differ(r1, r2, k, (n - 1) as nat);
    }
}

/// Header checksum sensitivity: a cartridge that verifies stops verifying
/// when any single byte of 0x134..=0x14C changes while the stored checksum
/// byte at 0x14D stays.
pub proof fn lemma_header_checksum_sensitive(r1: Seq<u8>, r2: Seq<u8>, k: int)
    requires
        r1.len() >= 0x14E,
        r2.len() >= 0x14E,
        0x134 <= k <= 0x14C,
        forall|j: int| 0x134 <= j <= 0x14C && j != k ==> #[trigger] r1[j] == r2[j],
        r1[k] != r2[k],
        r2[0x14D] == r1[0x14D],
        header_checksum_spec(r1) == r1[0x14D],
    ensures
        header_checksum_spec(r2) != r2[0x14D],
{
    lemma_hc_acc_differ(r1, r2, (k - 0x134) as nat, 25);
}

/// Relies on String::push: appends the one character to the end of the
/// string, leaving the rest unchanged.
pub assume_specification[ String::push ](s: &mut String, c: char)
    ensures
        final(s)@ == old(s)@.push(c),
;

/// A cartridge owns its ROM image for the life of the process. Reads index
/// straight into the buffer; writes are bank-control signals that the
/// unbanked kinds accept as no-ops.
#[derive(Debug, PartialEq, Eq)]
pub struct Cartridge {
    pub rom: Vec<u8>,
}

impl Default for Cartridge {
    /// A blank 64 KiB image.
    fn default() -> (r: Self)
        ensures
            r.rom@.len() == 65536,
            forall|j: int| 0 <= j < 65536 ==> r.rom@[j] == 0,
    {
        let mut rom: Vec<u8> = Vec::new();
        let mut i: usize = 0;
        while i < 65536
            invariant
                i <= 65536,
                rom@.len() == i,
                forall|j: int| 0 <= j < i ==> rom@[j] == 0,
            decreases 65536 - i,
        {
            rom.push(0);
            i += 1;
        }
        Cartridge { rom }
    }
}

impl Cartridge {
    pub fn new(rom: Vec<u8>) -> (r: Self)
        ensures
            r.rom@ == rom@,
    {
        Cartridge { rom }
    }

    /// Reads one ROM byte.
    pub fn read(&self, address: u16) -> (r: u8)
        requires
            address < self.rom@.len(),
        ensures
            r == self.rom@[address as int],
    {
        self.rom[address as usize]
    }

    /// A write into cartridge space is a bank-control signal; without a
    /// bank controller it changes nothing.
    pub fn write(&mut self, address: u16, value: u8)
        ensures
            *final(self) == *old(self),
    {
        let _ = address;
        let _ = value;
    }

    /// The four bytes at 0x100 the boot ROM jumps through, canonically a
    /// NOP followed by a jump.
    pub fn entry_point(&self) -> (r: Vec<u8>)
        requires
            self.rom@.len() >= 0x104,
        ensures
            r@ == self.rom@.subrange(0x100, 0x104),
    {
        self.copy_range(0x100, 0x104)
    }

    /// The 48-byte logo area at 0x104.
    pub fn nintendo_logo(&self) -> (r: Vec<u8>)
        requires
            self.rom@.len() >= 0x134,
        ensures
            r@ == self.rom@.subrange(0x104, 0x134),
    {
        self.copy_range(0x104, 0x134)
    }

    fn copy_range(&self, start: usize, end: usize) -> (r: Vec<u8>)
        requires
            start <= end <= self.rom@.len(),
        ensures
            r@ == self.rom@.subrange(start as int, end as int),
    {
        let mut out: Vec<u8> = Vec::new();
        let mut i: usize = start;
        while i < end
            invariant
                start <= i <= end <= self.rom@.len(),
                out@.len() == i - start,
                forall|j: int| 0 <= j < out@.len() ==> out@[j] == self.rom@[start + j],
            decreases end - i,
        {
            out.push(self.rom[i]);
            i += 1;
        }
        proof {
            assert(out@ =~= self.rom@.subrange(start as int, end as int));
        }
        out
    }

    /// Whether the logo area holds the expected bitmap; a mismatched logo
    /// locks up the boot ROM on hardware, so this is diagnostic only.
    pub fn is_logo_match(&self) -> (r: bool)
        requires
            self.rom@.len() >= 0x134,
        ensures
            r == (self.rom@.subrange(0x104, 0x134) =~= nintendo_logo_spec()),
    {
        let logo: Vec<u8> = vec![
            0xCE, 0xED, 0x66, 0x66, 0xCC, 0x0D, 0x00, 0x0B, 0x03, 0x73, 0x00, 0x83, 0x00, 0x0C,
            0x00, 0x0D, 0x00, 0x08, 0x11, 0x1F, 0x88, 0x89, 0x00, 0x0E, 0xDC, 0xCC, 0x6E, 0xE6,
            0xDD, 0xDD, 0xD9, 0x99, 0xBB, 0xBB, 0x67, 0x63, 0x6E, 0x0E, 0xEC, 0xCC, 0xDD, 0xDC,
            0x99, 0x9F, 0xBB, 0xB9, 0x33, 0x3E,
        ];
        let mut i: usize = 0;
        while i < 48
            invariant
                i <= 48,
                logo@ == nintendo_logo_spec(),
                self.rom@.len() >= 0x134,
                forall|j: int| 0 <= j < i ==> self.rom@[0x104 + j] == logo@[j],
            decreases 48 - i,
        {
            if self.rom[0x104 + i] != logo[i] {
                proof {
                    assert(self.rom@.subrange(0x104, 0x134)[i as int] != nintendo_logo_spec()[i as int]);
                }
                return false;
            }
            i += 1;
        }
        proof {
            assert(self.rom@.subrange(0x104, 0x134) =~= nintendo_logo_spec());
        }
        true
    }

    /// The title: up to 16 ASCII bytes at 0x134, NUL-trimmed.
    pub fn title(&self) -> (r: String)
        requires
            self.rom@.len() >= 0x144,
        ensures
            r@ == title_spec(self.rom@),
    {
        let ghost t = self.rom@.subrange(0x134, 0x144);
        let mut s = String::new();
        let mut i: usize = 0;
        while i < 16
            invariant
                i <= 16,
                self.rom@.len() >= 0x144,
                t == self.rom@.subrange(0x134, 0x144),
                forall|j: int| 0 <= j < i ==> t[j] != 0,
                s@.len() == i,
                forall|j: int| 0 <= j < i ==> s@[j] == t[j] as char,
            decreases 16 - i,
        {
            let b = self.rom[0x134 + i];
            if b == 0 {
                proof {
                    lemma_title_len(t, i as nat);
                    assert(s@ =~= title_spec(self.rom@));
                }
                return s;
            }
            s.push(b as char);
            i += 1;
        }
        proof {
            lemma_title_len(t, 16);
            assert(s@ =~= title_spec(self.rom@));
        }
        s
    }

    /// The four-byte manufacturer code newer cartridges keep at 0x13F.
    pub fn manufacturer_code(&self) -> (r: Vec<u8>)
        requires
            self.rom@.len() >= 0x143,
        ensures
            r@ == self.rom@.subrange(0x13F, 0x143),
    {
        self.copy_range(0x13F, 0x143)
    }

    /// What the CGB flag byte at 0x143 declares.
    pub fn color_mode(&self) -> (r: ColorMode)
        requires
            self.rom@.len() > 0x143,
        ensures
            r == (if self.rom@[0x143] == 0x80 {
                ColorMode::Supports
            } else if self.rom@[0x143] == 0xC0 {
                ColorMode::Required
            } else {
                ColorMode::Mono
            }),
    {
        match self.rom[0x143] {
            0x80 => ColorMode::Supports,
            0xC0 => ColorMode::Required,
            _ => ColorMode::Mono,
        }
    }

    /// Whether the byte at 0x146 marks a Super cartridge.
    pub fn is_super_gameboy(&self) -> (r: bool)
        requires
            self.rom@.len() > 0x146,
        ensures
            r == (self.rom@[0x146] == 0x03),
    {
        self.rom[0x146] == 0x03
    }

    /// Decodes the kind byte at 0x147.
    pub fn kind(&self) -> (r: Result<Kind, CartridgeError>)
        requires
            self.rom@.len() > 0x147,
        ensures
            r == kind_spec(self.rom@[0x147]),
    {
        Kind::try_from(self.rom[0x147])
    }

    /// The publisher: the new two-character code at 0x144 when the old
    /// byte at 0x14B is 0x33, otherwise the old byte itself.
    pub fn licensee(&self) -> (r: Result<Licensee, CartridgeError>)
        requires
            self.rom@.len() > 0x14B,
        ensures
            (if self.rom@[0x14B] == 0x33 {
                let a = self.rom@[0x144] as char;
                let b = self.rom@[0x145] as char;
                if a == '0' && b == '0' {
                    r == Ok::<Licensee, CartridgeError>(Licensee::Unlisted)
                } else if new_licensee_is_valid(a, b) {
                    match r {
                        Ok(Licensee::New(s)) => s@ == new_licensee_name(a, b),
                        _ => false,
                    }
                } else {
                    r == Err::<Licensee, CartridgeError>(
                        CartridgeError::InvalidNewLicenseeCode(a, b),
                    )
                }
            } else {
                let v = self.rom@[0x14B];
                if v == 0x00 {
                    r == Ok::<Licensee, CartridgeError>(Licensee::Unlisted)
                } else if old_licensee_is_valid(v) {
                    match r {
                        Ok(Licensee::Old(s)) => s@ == old_licensee_name(v),
                        _ => false,
                    }
                } else {
                    r == Err::<Licensee, CartridgeError>(
                        CartridgeError::InvalidOldLicenseeCode(v),
                    )
                }
            }),
    {
        match self.rom[0x14B] {
            0x33 => Licensee::try_from_pair(self.rom[0x144] as char, self.rom[0x145] as char),
            v => Licensee::try_from(v),
        }
    }

    /// The ROM size in KiB: 32 doubled once per step of the exponent byte
    /// at 0x148. Exponents of three and above name sizes past what fits
    /// the result type.
    pub fn rom_size(&self) -> (r: u8)
        requires
            self.rom@.len() > 0x148,
            self.rom@[0x148] < 3,
        ensures
            r == (if self.rom@[0x148] == 0 {
                32int
            } else if self.rom@[0x148] == 1 {
                64int
            } else {
                128int
            }),
    {
        if self.rom[0x148] == 0 {
            32
        } else if self.rom[0x148] == 1 {
            64
        } else {
            128
        }
    }

    /// The raw RAM size code at 0x149.
    pub fn ram_size(&self) -> (r: u8)
        requires
            self.rom@.len() > 0x149,
        ensures
            r == self.rom@[0x149],
    {
        self.rom[0x149]
    }

    /// Whether the region byte at 0x14A marks an overseas release.
    pub fn is_sold_overseas(&self) -> (r: bool)
        requires
            self.rom@.len() > 0x14A,
        ensures
            r == (self.rom@[0x14A] == 0x01),
    {
        self.rom[0x14A] == 0x01
    }

    /// The mask ROM revision byte at 0x14C.
    pub fn mask_rom_version(&self) -> (r: u8)
        requires
            self.rom@.len() > 0x14C,
        ensures
            r == self.rom@[0x14C],
    {
        self.rom[0x14C]
    }

    /// The stored header checksum byte at 0x14D.
    pub fn header_checksum(&self) -> (r: u8)
        requires
            self.rom@.len() > 0x14D,
        ensures
            r == self.rom@[0x14D],
    {
        self.rom[0x14D]
    }

    /// Recomputes the header checksum over 0x134..=0x14C and compares it
    /// with the stored byte; the boot ROM makes the same check.
    pub fn is_header_checksum_valid(&self) -> (r: bool)
        requires
            self.rom@.len() >= 0x14E,
        ensures
            r == (header_checksum_spec(self.rom@) == self.rom@[0x14D]),
    {
        let mut checksum: u8 = 0;
        let mut i: usize = 0;
        while i < 25
            invariant
                i <= 25,
                self.rom@.len() >= 0x14E,
                checksum == hc_acc(self.rom@, i as nat),
            decreases 25 - i,
        {
            checksum = checksum.wrapping_sub(self.rom[0x134 + i]).wrapping_sub(1);
            i += 1;
        }
        checksum == self.header_checksum()
    }

    /// The stored global checksum, big-endian at 0x14E..=0x14F.
    pub fn global_checksum(&self) -> (r: u16)
        requires
            self.rom@.len() >= 0x150,
        ensures
            r == pair16(self.rom@[0x14E], self.rom@[0x14F]),
    {
        crate::num::join16(self.rom[0x14E], self.rom[0x14F])
    }

    /// Sums every ROM byte except the two stored checksum bytes and
    /// compares with the stored value; the boot ROM never checks this.
    pub fn is_global_checksum_valid(&self) -> (r: bool)
        requires
            self.rom@.len() >= 0x150,
        ensures
            r == (gc_acc(self.rom@, self.rom@.len()) == pair16(
                self.rom@[0x14E],
                self.rom@[0x14F],
            )),
    {
        let mut checksum: u16 = 0;
        let mut i: usize = 0;
        while i < self.rom.len()
            invariant
                i <= self.rom@.len(),
                self.rom@.len() >= 0x150,
                checksum == gc_acc(self.rom@, i as nat),
            decreases self.rom@.len() - i,
        {
            if !(i == 0x14E || i == 0x14F) {
                checksum = checksum.wrapping_add(self.rom[i] as u16);
            }
            i += 1;
        }
        checksum == self.global_checksum()
    }
}

pub open spec fn kind_spec(b: u8) -> Result<Kind, CartridgeError> {
    match b {
        0x00u8 => Ok(Kind::RomOnly),
        0x01u8 => Ok(Kind::Mbc1),
        0x02u8 => Ok(Kind::Mb1Ram),
        0x03u8 => Ok(Kind::Mbc1RamBattery),
        0x05u8 => Ok(Kind::Mbc2),
        0x06u8 => Ok(Kind::Mbc2Battery),
        0x08u8 => Ok(Kind::RomRam),
        0x09u8 => Ok(Kind::RomRamBattery),
        0x0Bu8 => Ok(Kind::Mmm01),
        0x0Cu8 => Ok(Kind::Mmm01Ram),
        0x0Du8 => Ok(Kind::Mmm01RamBattery),
        0x0Fu8 => Ok(Kind::Mbc3TimerBattery),
        0x10u8 => Ok(Kind::Mbc3TimerRamBattery),
        0x11u8 => Ok(Kind::Mbc3),
        0x12u8 => Ok(Kind::Mbc3Ram),
        0x13u8 => Ok(Kind::Mbc3RamBattery),
        0x19u8 => Ok(Kind::Mbc5),
        0x1Au8 => Ok(Kind::Mbc5Ram),
        0x1Bu8 => Ok(Kind::Mbc5RamBattery),
        0x1Cu8 => Ok(Kind::Mbc5Rumble),
        0x1Du8 => Ok(Kind::Mbc5RumbleRam),
        0x1Eu8 => Ok(Kind::Mbc5RumbleRamBattery),
        0x20u8 => Ok(Kind::Mbc6),
        0x22u8 => Ok(Kind::Mbc7SensorRumbleRamBattery),
        0xFCu8 => Ok(Kind::PocketCamera),
        0xFDu8 => Ok(Kind::BandaiTama5),
        0xFEu8 => Ok(Kind::Huc3),
        0xFFu8 => Ok(Kind::Huc1RamBattery),
        _ => Err(CartridgeError::InvalidCartridgeKind(b)),
    }
}

impl Kind {
    /// Decodes the cartridge-kind byte found at offset 0x147 of the header.
    pub fn try_from(value: u8) -> (r: Result<Kind, CartridgeError>)
        ensures
            r == kind_spec(value),
    {
        match value {
            0x00 => Ok(Kind::RomOnly),
            0x01 => Ok(Kind::Mbc1),
            0x02 => Ok(Kind::Mb1Ram),
            0x03 => Ok(Kind::Mbc1RamBattery),
            0x05 => Ok(Kind::Mbc2),
            0x06 => Ok(Kind::Mbc2Battery),
            0x08 => Ok(Kind::RomRam),
            0x09 => Ok(Kind::RomRamBattery),
            0x0B => Ok(Kind::Mmm01),
            0x0C => Ok(Kind::Mmm01Ram),
            0x0D => Ok(Kind::Mmm01RamBattery),
            0x0F => Ok(Kind::Mbc3TimerBattery),
            0x10 => Ok(Kind::Mbc3TimerRamBattery),
            0x11 => Ok(Kind::Mbc3),
            0x12 => Ok(Kind::Mbc3Ram),
            0x13 => Ok(Kind::Mbc3RamBattery),
            0x19 => Ok(Kind::Mbc5),
            0x1A => Ok(Kind::Mbc5Ram),
            0x1B => Ok(Kind::Mbc5RamBattery),
            0x1C => Ok(Kind::Mbc5Rumble),
            0x1D => Ok(Kind::Mbc5RumbleRam),
            0x1E => Ok(Kind::Mbc5RumbleRamBattery),
            0x20 => Ok(Kind::Mbc6),
            0x22 => Ok(Kind::Mbc7SensorRumbleRamBattery),
            0xFC => Ok(Kind::PocketCamera),
            0xFD => Ok(Kind::BandaiTama5),
            0xFE => Ok(Kind::Huc3),
            0xFF => Ok(Kind::Huc1RamBattery),
            v => Err(CartridgeError::InvalidCartridgeKind(v)),
        }
    }
}

pub open spec fn old_licensee_is_valid(b: u8) -> bool {
    match b {
        0x00u8 | 0x01u8 | 0x08u8 | 0x09u8 | 0x0Au8 | 0x0Bu8 | 0x0Cu8 | 0x13u8 | 0x18u8 | 0x19u8 |
        0x1Au8 | 0x1Du8 | 0x1Fu8 | 0x24u8 | 0x25u8 | 0x28u8 | 0x29u8 | 0x30u8 | 0x31u8 | 0x32u8 |
        0x34u8 | 0x35u8 | 0x38u8 | 0x39u8 | 0x3Cu8 | 0x3Eu8 | 0x41u8 | 0x42u8 | 0x44u8 | 0x46u8 |
        0x47u8 | 0x49u8 | 0x4Au8 | 0x4Du8 | 0x4Fu8 | 0x50u8 | 0x51u8 | 0x52u8 | 0x53u8 | 0x54u8 |
        0x55u8 | 0x56u8 | 0x57u8 | 0x59u8 | 0x5Au8 | 0x5Bu8 | 0x5Cu8 | 0x5Du8 | 0x60u8 | 0x61u8 |
        0x67u8 | 0x69u8 | 0x6Eu8 | 0x6Fu8 | 0x70u8 | 0x71u8 | 0x72u8 | 0x73u8 | 0x75u8 | 0x78u8 |
        0x79u8 | 0x7Au8 | 0x7Cu8 | 0x7Fu8 | 0x80u8 | 0x83u8 | 0x86u8 | 0x8Bu8 | 0x8Cu8 | 0x8Eu8 |
        0x8Fu8 | 0x91u8 | 0x92u8 | 0x93u8 | 0x95u8 | 0x96u8 | 0x97u8 | 0x99u8 | 0x9Au8 | 0x9Bu8 |
        0x9Cu8 | 0x9Du8 | 0x9Fu8 | 0xA1u8 | 0xA2u8 | 0xA4u8 | 0xA6u8 | 0xA7u8 | 0xA9u8 | 0xAAu8 |
        0xACu8 | 0xADu8 | 0xAFu8 | 0xB0u8 | 0xB1u8 | 0xB2u8 | 0xB4u8 | 0xB6u8 | 0xB7u8 | 0xB9u8 |
        0xBAu8 | 0xBBu8 | 0xBDu8 | 0xBFu8 | 0xC0u8 | 0xC2u8 | 0xC3u8 | 0xC4u8 | 0xC5u8 | 0xC6u8 |
        0xC8u8 | 0xC9u8 | 0xCAu8 | 0xCBu8 | 0xCCu8 | 0xCDu8 | 0xCEu8 | 0xCFu8 | 0xD0u8 | 0xD1u8 |
        0xD2u8 | 0xD3u8 | 0xD4u8 | 0xD6u8 | 0xD7u8 | 0xD9u8 | 0xDAu8 | 0xDBu8 | 0xDDu8 | 0xDEu8 |
        0xDFu8 | 0xE0u8 | 0xE1u8 | 0xE2u8 | 0xE3u8 | 0xE5u8 | 0xE7u8 | 0xE8u8 | 0xE9u8 | 0xEAu8 |
        0xEBu8 | 0xECu8 | 0xEEu8 | 0xF0u8 | 0xF3u8 | 0xFFu8
        => true,
        _ => false,
    }
}

pub open spec fn old_licensee_name(b: u8) -> Seq<char> {
    match b {
        0x01u8 => "Nintendo"@,
        0x08u8 => "Capcom"@,
        0x09u8 => "HOT-B"@,
        0x0Au8 => "Jaleco"@,
        0x0Bu8 => "Coconuts Japan"@,
        0x0Cu8 => "Elite Systems"@,
        0x13u8 => "EA (Electronic Arts)"@,
        0x18u8 => "Hudson Soft"@,
        0x19u8 => "ITC Entertainment"@,
        0x1Au8 => "Yanoman"@,
        0x1Du8 => "Japan Clary"@,
        0x1Fu8 => "Virgin Games Ltd.3"@,
        0x24u8 => "PCM Complete"@,
        0x25u8 => "San-X"@,
        0x28u8 => "Kemco"@,
        0x29u8 => "SETA Corporation"@,
        0x30u8 => "Infogrames5"@,
        0x31u8 => "Nintendo"@,
        0x32u8 => "Bandai"@,
        0x34u8 => "Konami"@,
        0x35u8 => "HectorSoft"@,
        0x38u8 => "Capcom"@,
        0x39u8 => "Banpresto"@,
        0x3Cu8 => ".Entertainment i"@,
        0x3Eu8 => "Gremlin"@,
        0x41u8 => "Ubi Soft1"@,
        0x42u8 => "Atlus"@,
        0x44u8 => "Malibu Interactive"@,
        0x46u8 => "Angel"@,
        0x47u8 => "Spectrum Holoby"@,
        0x49u8 => "Irem"@,
        0x4Au8 => "Virgin Games Ltd.3"@,
        0x4Du8 => "Malibu Interactive"@,
        0x4Fu8 => "U.S. Gold"@,
        0x50u8 => "Absolute"@,
        0x51u8 => "Acclaim Entertainment"@,
        0x52u8 => "Activision"@,
        0x53u8 => "Sammy USA Corporation"@,
        0x54u8 => "GameTek"@,
        0x55u8 => "Park Place"@,
        0x56u8 => "LJN"@,
        0x57u8 => "Matchbox"@,
        0x59u8 => "Milton Bradley Company"@,
        0x5Au8 => "Mindscape"@,
        0x5Bu8 => "Romstar"@,
        0x5Cu8 => "Naxat Soft13"@,
        0x5Du8 => "Tradewest"@,
        0x60u8 => "Titus Interactive"@,
        0x61u8 => "Virgin Games Ltd.3"@,
        0x67u8 => "Ocean Software"@,
        0x69u8 => "EA (Electronic Arts)"@,
        0x6Eu8 => "Elite Systems"@,
        0x6Fu8 => "Electro Brain"@,
        0x70u8 => "Infogrames5"@,
        0x71u8 => "Interplay Entertainment"@,
        0x72u8 => "Broderbund"@,
        0x73u8 => "Sculptured Software6"@,
        0x75u8 => "The Sales Curve Limited7"@,
        0x78u8 => "THQ"@,
        0x79u8 => "Accolade"@,
        0x7Au8 => "Triffix Entertainment"@,
        0x7Cu8 => "Microprose"@,
        0x7Fu8 => "Kemco"@,
        0x80u8 => "Misawa Entertainment"@,
        0x83u8 => "Lozc"@,
        0x86u8 => "Tokuma Shoten"@,
        0x8Bu8 => "Bullet-Proof Software2"@,
        0x8Cu8 => "Vic Tokai"@,
        0x8Eu8 => "Ape"@,
        0x8Fu8 => "I'Max"@,
        0x91u8 => "Chunsoft Co.8"@,
        0x92u8 => "Video System"@,
        0x93u8 => "Tsubaraya Productions"@,
        0x95u8 => "Varie"@,
        0x96u8 => "Yonezawa/S’Pal"@,
        0x97u8 => "Kemco"@,
        0x99u8 => "Arc"@,
        0x9Au8 => "Nihon Bussan"@,
        0x9Bu8 => "Tecmo"@,
        0x9Cu8 => "Imagineer"@,
        0x9Du8 => "Banpresto"@,
        0x9Fu8 => "Nova"@,
        0xA1u8 => "Hori Electric"@,
        0xA2u8 => "Bandai"@,
        0xA4u8 => "Konami"@,
        0xA6u8 => "Kawada"@,
        0xA7u8 => "Takara"@,
        0xA9u8 => "Technos Japan"@,
        0xAAu8 => "Broderbund"@,
        0xACu8 => "Toei Animation"@,
        0xADu8 => "Toho"@,
        0xAFu8 => "Namco"@,
        0xB0u8 => "Acclaim Entertainment"@,
        0xB1u8 => "ASCII Corporation or Nexsoft"@,
        0xB2u8 => "Bandai"@,
        0xB4u8 => "Square Enix"@,
        0xB6u8 => "HAL Laboratory"@,
        0xB7u8 => "SNK"@,
        0xB9u8 => "Pony Canyon"@,
        0xBAu8 => "Culture Brain"@,
        0xBBu8 => "Sunsoft"@,
        0xBDu8 => "Sony Imagesoft"@,
        0xBFu8 => "Sammy Corporation"@,
        0xC0u8 => "Taito"@,
        0xC2u8 => "Kemco"@,
        0xC3u8 => "Square"@,
        0xC4u8 => "Tokuma Shoten"@,
        0xC5u8 => "Data East"@,
        0xC6u8 => "Tonkinhouse"@,
        0xC8u8 => "Koei"@,
        0xC9u8 => "UFL"@,
        0xCAu8 => "Ultra"@,
        0xCBu8 => "Vap"@,
        0xCCu8 => "Use Corporation"@,
        0xCDu8 => "Meldac"@,
        0xCEu8 => "Pony Canyon"@,
        0xCFu8 => "Angel"@,
        0xD0u8 => "Taito"@,
        0xD1u8 => "Sofel"@,
        0xD2u8 => "Quest"@,
        0xD3u8 => "Sigma Enterprises"@,
        0xD4u8 => "ASK Kodansha Co."@,
        0xD6u8 => "Naxat Soft13"@,
        0xD7u8 => "Copya System"@,
        0xD9u8 => "Banpresto"@,
        0xDAu8 => "Tomy"@,
        0xDBu8 => "LJN"@,
        0xDDu8 => "NCS"@,
        0xDEu8 => "Human"@,
        0xDFu8 => "Altron"@,
        0xE0u8 => "Jaleco"@,
        0xE1u8 => "Towa Chiki"@,
        0xE2u8 => "Yutaka"@,
        0xE3u8 => "Varie"@,
        0xE5u8 => "Epcoh"@,
        0xE7u8 => "Athena"@,
        0xE8u8 => "Asmik Ace Entertainment"@,
        0xE9u8 => "Natsume"@,
        0xEAu8 => "King Records"@,
        0xEBu8 => "Atlus"@,
        0xECu8 => "Epic/Sony Records"@,
        0xEEu8 => "IGS"@,
        0xF0u8 => "A Wave"@,
        0xF3u8 => "Extreme Entertainment"@,
        0xFFu8 => "LJN"@,
        _ => Seq::empty(),
    }
}

impl Licensee {
    /// Decodes the old licensee byte at offset 0x14B (used when it is not 0x33).
    pub fn try_from(value: u8) -> (r: Result<Licensee, CartridgeError>)
        ensures
            value == 0x00 ==> r == Ok::<Licensee, CartridgeError>(Licensee::Unlisted),
            value != 0x00 && old_licensee_is_valid(value) ==> (match r {
                Ok(Licensee::Old(s)) => s@ == old_licensee_name(value),
                _ => false,
            }),
            !old_licensee_is_valid(value) ==> r == Err::<Licensee, CartridgeError>(
                CartridgeError::InvalidOldLicenseeCode(value),
            ),
    {
        match value {
            0x00 => Ok(Licensee::Unlisted),
            0x01 => Ok(Licensee::Old("Nintendo")),
            0x08 => Ok(Licensee::Old("Capcom")),
            0x09 => Ok(Licensee::Old("HOT-B")),
            0x0A => Ok(Licensee::Old("Jaleco")),
            0x0B => Ok(Licensee::Old("Coconuts Japan")),
            0x0C => Ok(Licensee::Old("Elite Systems")),
            0x13 => Ok(Licensee::Old("EA (Electronic Arts)")),
            0x18 => Ok(Licensee::Old("Hudson Soft")),
            0x19 => Ok(Licensee::Old("ITC Entertainment")),
            0x1A => Ok(Licensee::Old("Yanoman")),
            0x1D => Ok(Licensee::Old("Japan Clary")),
            0x1F => Ok(Licensee::Old("Virgin Games Ltd.3")),
            0x24 => Ok(Licensee::Old("PCM Complete")),
            0x25 => Ok(Licensee::Old("San-X")),
            0x28 => Ok(Licensee::Old("Kemco")),
            0x29 => Ok(Licensee::Old("SETA Corporation")),
            0x30 => Ok(Licensee::Old("Infogrames5")),
            0x31 => Ok(Licensee::Old("Nintendo")),
            0x32 => Ok(Licensee::Old("Bandai")),
            0x34 => Ok(Licensee::Old("Konami")),
            0x35 => Ok(Licensee::Old("HectorSoft")),
            0x38 => Ok(Licensee::Old("Capcom")),
            0x39 => Ok(Licensee::Old("Banpresto")),
            0x3C => Ok(Licensee::Old(".Entertainment i")),
            0x3E => Ok(Licensee::Old("Gremlin")),
            0x41 => Ok(Licensee::Old("Ubi Soft1")),
            0x42 => Ok(Licensee::Old("Atlus")),
            0x44 => Ok(Licensee::Old("Malibu Interactive")),
            0x46 => Ok(Licensee::Old("Angel")),
            0x47 => Ok(Licensee::Old("Spectrum Holoby")),
            0x49 => Ok(Licensee::Old("Irem")),
            0x4A => Ok(Licensee::Old("Virgin Games Ltd.3")),
            0x4D => Ok(Licensee::Old("Malibu Interactive")),
            0x4F => Ok(Licensee::Old("U.S. Gold")),
            0x50 => Ok(Licensee::Old("Absolute")),
            0x51 => Ok(Licensee::Old("Acclaim Entertainment")),
            0x52 => Ok(Licensee::Old("Activision")),
            0x53 => Ok(Licensee::Old("Sammy USA Corporation")),
            0x54 => Ok(Licensee::Old("GameTek")),
            0x55 => Ok(Licensee::Old("Park Place")),
            0x56 => Ok(Licensee::Old("LJN")),
            0x57 => Ok(Licensee::Old("Matchbox")),
            0x59 => Ok(Licensee::Old("Milton Bradley Company")),
            0x5A => Ok(Licensee::Old("Mindscape")),
            0x5B => Ok(Licensee::Old("Romstar")),
            0x5C => Ok(Licensee::Old("Naxat Soft13")),
            0x5D => Ok(Licensee::Old("Tradewest")),
            0x60 => Ok(Licensee::Old("Titus Interactive")),
            0x61 => Ok(Licensee::Old("Virgin Games Ltd.3")),
            0x67 => Ok(Licensee::Old("Ocean Software")),
            0x69 => Ok(Licensee::Old("EA (Electronic Arts)")),
            0x6E => Ok(Licensee::Old("Elite Systems")),
            0x6F => Ok(Licensee::Old("Electro Brain")),
            0x70 => Ok(Licensee::Old("Infogrames5")),
            0x71 => Ok(Licensee::Old("Interplay Entertainment")),
            0x72 => Ok(Licensee::Old("Broderbund")),
            0x73 => Ok(Licensee::Old("Sculptured Software6")),
            0x75 => Ok(Licensee::Old("The Sales Curve Limited7")),
            0x78 => Ok(Licensee::Old("THQ")),
            0x79 => Ok(Licensee::Old("Accolade")),
            0x7A => Ok(Licensee::Old("Triffix Entertainment")),
            0x7C => Ok(Licensee::Old("Microprose")),
            0x7F => Ok(Licensee::Old("Kemco")),
            0x80 => Ok(Licensee::Old("Misawa Entertainment")),
            0x83 => Ok(Licensee::Old("Lozc")),
            0x86 => Ok(Licensee::Old("Tokuma Shoten")),
            0x8B => Ok(Licensee::Old("Bullet-Proof Software2")),
            0x8C => Ok(Licensee::Old("Vic Tokai")),
            0x8E => Ok(Licensee::Old("Ape")),
            0x8F => Ok(Licensee::Old("I'Max")),
            0x91 => Ok(Licensee::Old("Chunsoft Co.8")),
            0x92 => Ok(Licensee::Old("Video System")),
            0x93 => Ok(Licensee::Old("Tsubaraya Productions")),
            0x95 => Ok(Licensee::Old("Varie")),
            0x96 => Ok(Licensee::Old("Yonezawa/S’Pal")),
            0x97 => Ok(Licensee::Old("Kemco")),
            0x99 => Ok(Licensee::Old("Arc")),
            0x9A => Ok(Licensee::Old("Nihon Bussan")),
            0x9B => Ok(Licensee::Old("Tecmo")),
            0x9C => Ok(Licensee::Old("Imagineer")),
            0x9D => Ok(Licensee::Old("Banpresto")),
            0x9F => Ok(Licensee::Old("Nova")),
            0xA1 => Ok(Licensee::Old("Hori Electric")),
            0xA2 => Ok(Licensee::Old("Bandai")),
            0xA4 => Ok(Licensee::Old("Konami")),
            0xA6 => Ok(Licensee::Old("Kawada")),
            0xA7 => Ok(Licensee::Old("Takara")),
            0xA9 => Ok(Licensee::Old("Technos Japan")),
            0xAA => Ok(Licensee::Old("Broderbund")),
            0xAC => Ok(Licensee::Old("Toei Animation")),
            0xAD => Ok(Licensee::Old("Toho")),
            0xAF => Ok(Licensee::Old("Namco")),
            0xB0 => Ok(Licensee::Old("Acclaim Entertainment")),
            0xB1 => Ok(Licensee::Old("ASCII Corporation or Nexsoft")),
            0xB2 => Ok(Licensee::Old("Bandai")),
            0xB4 => Ok(Licensee::Old("Square Enix")),
            0xB6 => Ok(Licensee::Old("HAL Laboratory")),
            0xB7 => Ok(Licensee::Old("SNK")),
            0xB9 => Ok(Licensee::Old("Pony Canyon")),
            0xBA => Ok(Licensee::Old("Culture Brain")),
            0xBB => Ok(Licensee::Old("Sunsoft")),
            0xBD => Ok(Licensee::Old("Sony Imagesoft")),
            0xBF => Ok(Licensee::Old("Sammy Corporation")),
            0xC0 => Ok(Licensee::Old("Taito")),
            0xC2 => Ok(Licensee::Old("Kemco")),
            0xC3 => Ok(Licensee::Old("Square")),
            0xC4 => Ok(Licensee::Old("Tokuma Shoten")),
            0xC5 => Ok(Licensee::Old("Data East")),
            0xC6 => Ok(Licensee::Old("Tonkinhouse")),
            0xC8 => Ok(Licensee::Old("Koei")),
            0xC9 => Ok(Licensee::Old("UFL")),
            0xCA => Ok(Licensee::Old("Ultra")),
            0xCB => Ok(Licensee::Old("Vap")),
            0xCC => Ok(Licensee::Old("Use Corporation")),
            0xCD => Ok(Licensee::Old("Meldac")),
            0xCE => Ok(Licensee::Old("Pony Canyon")),
            0xCF => Ok(Licensee::Old("Angel")),
            0xD0 => Ok(Licensee::Old("Taito")),
            0xD1 => Ok(Licensee::Old("Sofel")),
            0xD2 => Ok(Licensee::Old("Quest")),
            0xD3 => Ok(Licensee::Old("Sigma Enterprises")),
            0xD4 => Ok(Licensee::Old("ASK Kodansha Co.")),
            0xD6 => Ok(Licensee::Old("Naxat Soft13")),
            0xD7 => Ok(Licensee::Old("Copya System")),
            0xD9 => Ok(Licensee::Old("Banpresto")),
            0xDA => Ok(Licensee::Old("Tomy")),
            0xDB => Ok(Licensee::Old("LJN")),
            0xDD => Ok(Licensee::Old("NCS")),
            0xDE => Ok(Licensee::Old("Human")),
            0xDF => Ok(Licensee::Old("Altron")),
            0xE0 => Ok(Licensee::Old("Jaleco")),
            0xE1 => Ok(Licensee::Old("Towa Chiki")),
            0xE2 => Ok(Licensee::Old("Yutaka")),
            0xE3 => Ok(Licensee::Old("Varie")),
            0xE5 => Ok(Licensee::Old("Epcoh")),
            0xE7 => Ok(Licensee::Old("Athena")),
            0xE8 => Ok(Licensee::Old("Asmik Ace Entertainment")),
            0xE9 => Ok(Licensee::Old("Natsume")),
            0xEA => Ok(Licensee::Old("King Records")),
            0xEB => Ok(Licensee::Old("Atlus")),
            0xEC => Ok(Licensee::Old("Epic/Sony Records")),
            0xEE => Ok(Licensee::Old("IGS")),
            0xF0 => Ok(Licensee::Old("A Wave")),
            0xF3 => Ok(Licensee::Old("Extreme Entertainment")),
            0xFF => Ok(Licensee::Old("LJN")),
            v => Err(CartridgeError::InvalidOldLicenseeCode(v)),
        }
    }

    /// Decodes the new licensee code, two ASCII characters at offsets 0x144 and 0x145.
    pub fn try_from_pair(a: char, b: char) -> (r: Result<Licensee, CartridgeError>)
        ensures
            a == '0' && b == '0' ==> r == Ok::<Licensee, CartridgeError>(Licensee::Unlisted),
            !(a == '0' && b == '0') && new_licensee_is_valid(a, b) ==> (match r {
                Ok(Licensee::New(s)) => s@ == new_licensee_name(a, b),
                _ => false,
            }),
            !new_licensee_is_valid(a, b) ==> r == Err::<Licensee, CartridgeError>(
                CartridgeError::InvalidNewLicenseeCode(a, b),
            ),
    {
        match (a, b) {
            ('0', '0') => Ok(Licensee::Unlisted),
            ('0', '1') => Ok(Licensee::New("Nintendo R&D1")),
            ('0', '8') => Ok(Licensee::New("Capcom")),
            ('1', '3') => Ok(Licensee::New("Electronic Arts")),
            ('1', '8') => Ok(Licensee::New("Hudson Soft")),
            ('1', '9') => Ok(Licensee::New("b-ai")),
            ('2', '0') => Ok(Licensee::New("kss")),
            ('2', '2') => Ok(Licensee::New("pow")),
            ('2', '4') => Ok(Licensee::New("PCM Complete")),
            ('2', '5') => Ok(Licensee::New("san-x")),
            ('2', '8') => Ok(Licensee::New("Kemco Japan")),
            ('2', '9') => Ok(Licensee::New("seta")),
            ('3', '0') => Ok(Licensee::New("Viacom")),
            ('3', '1') => Ok(Licensee::New("Nintendo")),
            ('3', '2') => Ok(Licensee::New("Bandai")),
            ('3', '3') => Ok(Licensee::New("Ocean/Acclaim")),
            ('3', '4') => Ok(Licensee::New("Konami")),
            ('3', '5') => Ok(Licensee::New("Hector")),
            ('3', '7') => Ok(Licensee::New("Taito")),
            ('3', '8') => Ok(Licensee::New("Hudson")),
            ('3', '9') => Ok(Licensee::New("Banpresto")),
            ('4', '1') => Ok(Licensee::New("Ubi Soft")),
            ('4', '2') => Ok(Licensee::New("Atlus")),
            ('4', '4') => Ok(Licensee::New("Malibu")),
            ('4', '6') => Ok(Licensee::New("angel")),
            ('4', '7') => Ok(Licensee::New("Bullet-Proof")),
            ('4', '9') => Ok(Licensee::New("irem")),
            ('5', '0') => Ok(Licensee::New("Absolute")),
            ('5', '1') => Ok(Licensee::New("Acclaim")),
            ('5', '2') => Ok(Licensee::New("Activision")),
            ('5', '3') => Ok(Licensee::New("American sammy")),
            ('5', '4') => Ok(Licensee::New("Konami")),
            ('5', '5') => Ok(Licensee::New("Hi tech entertainment")),
            ('5', '6') => Ok(Licensee::New("LJN")),
            ('5', '7') => Ok(Licensee::New("Matchbox")),
            ('5', '8') => Ok(Licensee::New("Mattel")),
            ('5', '9') => Ok(Licensee::New("Milton Bradley")),
            ('6', '0') => Ok(Licensee::New("Titus")),
            ('6', '1') => Ok(Licensee::New("Virgin")),
            ('6', '4') => Ok(Licensee::New("LucasArts")),
            ('6', '7') => Ok(Licensee::New("Ocean")),
            ('6', '9') => Ok(Licensee::New("Electronic Arts")),
            ('7', '0') => Ok(Licensee::New("Infogrames")),
            ('7', '1') => Ok(Licensee::New("Interplay")),
            ('7', '2') => Ok(Licensee::New("Broderbund")),
            ('7', '3') => Ok(Licensee::New("sculptured")),
            ('7', '5') => Ok(Licensee::New("sci")),
            ('7', '8') => Ok(Licensee::New("THQ")),
            ('7', '9') => Ok(Licensee::New("Accolade")),
            ('8', '0') => Ok(Licensee::New("misawa")),
            ('8', '3') => Ok(Licensee::New("lozc")),
            ('8', '6') => Ok(Licensee::New("Tokuma Shoten Intermedia")),
            ('8', '7') => Ok(Licensee::New("Tsukuda Original")),
            ('9', '1') => Ok(Licensee::New("Chunsoft")),
            ('9', '2') => Ok(Licensee::New("Video system")),
            ('9', '3') => Ok(Licensee::New("Ocean/Acclaim")),
            ('9', '5') => Ok(Licensee::New("Varie")),
            ('9', '6') => Ok(Licensee::New("Yonezawa/s'pal")),
            ('9', '7') => Ok(Licensee::New("Kaneko")),
            ('9', '9') => Ok(Licensee::New("Pack in soft")),
            ('A', '4') => Ok(Licensee::New("Konami (Yu-Gi-Oh!)")),
            _ => Err(CartridgeError::InvalidNewLicenseeCode(a, b)),
        }
    }
}

pub open spec fn new_licensee_is_valid(a: char, b: char) -> bool {
    match (a, b) {
        ('0', '0') | ('0', '1') | ('0', '8') | ('1', '3') | ('1', '8') | ('1', '9') | ('2', '0') |
        ('2', '2') | ('2', '4') | ('2', '5') | ('2', '8') | ('2', '9') | ('3', '0') | ('3', '1') |
        ('3', '2') | ('3', '3') | ('3', '4') | ('3', '5') | ('3', '7') | ('3', '8') | ('3', '9') |
        ('4', '1') | ('4', '2') | ('4', '4') | ('4', '6') | ('4', '7') | ('4', '9') | ('5', '0') |
        ('5', '1') | ('5', '2') | ('5', '3') | ('5', '4') | ('5', '5') | ('5', '6') | ('5', '7') |
        ('5', '8') | ('5', '9') | ('6', '0') | ('6', '1') | ('6', '4') | ('6', '7') | ('6', '9') |
        ('7', '0') | ('7', '1') | ('7', '2') | ('7', '3') | ('7', '5') | ('7', '8') | ('7', '9') |
        ('8', '0') | ('8', '3') | ('8', '6') | ('8', '7') | ('9', '1') | ('9', '2') | ('9', '3') |
        ('9', '5') | ('9', '6') | ('9', '7') | ('9', '9') | ('A', '4')
        => true,
        _ => false,
    }
}

pub open spec fn new_licensee_name(a: char, b: char) -> Seq<char> {
    match (a, b) {
        ('0', '1') => "Nintendo R&D1"@,
        ('0', '8') => "Capcom"@,
        ('1', '3') => "Electronic Arts"@,
        ('1', '8') => "Hudson Soft"@,
        ('1', '9') => "b-ai"@,
        ('2', '0') => "kss"@,
        ('2', '2') => "pow"@,
        ('2', '4') => "PCM Complete"@,
        ('2', '5') => "san-x"@,
        ('2', '8') => "Kemco Japan"@,
        ('2', '9') => "seta"@,
        ('3', '0') => "Viacom"@,
        ('3', '1') => "Nintendo"@,
        ('3', '2') => "Bandai"@,
        ('3', '3') => "Ocean/Acclaim"@,
        ('3', '4') => "Konami"@,
        ('3', '5') => "Hector"@,
        ('3', '7') => "Taito"@,
        ('3', '8') => "Hudson"@,
        ('3', '9') => "Banpresto"@,
        ('4', '1') => "Ubi Soft"@,
        ('4', '2') => "Atlus"@,
        ('4', '4') => "Malibu"@,
        ('4', '6') => "angel"@,
        ('4', '7') => "Bullet-Proof"@,
        ('4', '9') => "irem"@,
        ('5', '0') => "Absolute"@,
        ('5', '1') => "Acclaim"@,
        ('5', '2') => "Activision"@,
        ('5', '3') => "American sammy"@,
        ('5', '4') => "Konami"@,
        ('5', '5') => "Hi tech entertainment"@,
        ('5', '6') => "LJN"@,
        ('5', '7') => "Matchbox"@,
        ('5', '8') => "Mattel"@,
        ('5', '9') => "Milton Bradley"@,
        ('6', '0') => "Titus"@,
        ('6', '1') => "Virgin"@,
        ('6', '4') => "LucasArts"@,
        ('6', '7') => "Ocean"@,
        ('6', '9') => "Electronic Arts"@,
        ('7', '0') => "Infogrames"@,
        ('7', '1') => "Interplay"@,
        ('7', '2') => "Broderbund"@,
        ('7', '3') => "sculptured"@,
        ('7', '5') => "sci"@,
        ('7', '8') => "THQ"@,
        ('7', '9') => "Accolade"@,
        ('8', '0') => "misawa"@,
        ('8', '3') => "lozc"@,
        ('8', '6') => "Tokuma Shoten Intermedia"@,
        ('8', '7') => "Tsukuda Original"@,
        ('9', '1') => "Chunsoft"@,
        ('9', '2') => "Video system"@,
        ('9', '3') => "Ocean/Acclaim"@,
        ('9', '5') => "Varie"@,
        ('9', '6') => "Yonezawa/s'pal"@,
        ('9', '7') => "Kaneko"@,
        ('9', '9') => "Pack in soft"@,
        ('A', '4') => "Konami (Yu-Gi-Oh!)"@,
        _ => Seq::empty(),
    }
}

} // verus!
