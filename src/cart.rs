//! Cartridge images in the iNES / NES 2.0 format: the 16-byte header and the
//! data that follows it.

use crate::bits::Bitwise;
use vstd::arithmetic::power2::{lemma2_to64, pow2};
use vstd::bits::{lemma_u64_pow2_no_overflow, lemma_u64_shl_is_mul};
use vstd::prelude::*;

verus! {

/// The four bytes every image starts with: "NES" followed by 0x1A.
pub open spec fn has_identifier(b: Seq<u8>) -> bool {
    b.len() >= 4 && b[0] == 0x4e && b[1] == 0x45 && b[2] == 0x53 && b[3] == 0x1a
}

/// Length of the header, identifier included.
pub const HEADER_SIZE: usize = 16;

/// Size of one PRG-ROM unit.
pub const PRG_ROM_UNIT: usize = 0x4000;

/// Size of one CHR-ROM unit.
pub const CHR_ROM_UNIT: usize = 0x2000;

/// The kind of console an image is meant for.
pub enum ConsoleType {
    Famicom,
    VSSystem,
    PlayChoice,
    Other,
}

/// Why an image could not be loaded.
#[derive(PartialEq, Eq, Structural, Debug, Clone, Copy)]
pub enum LoadError {
    /// Shorter than the header, or than the PRG/CHR sizes the header declares.
    Truncated,
    /// The first four bytes are not the identifier.
    BadIdentifier,
    /// The header asks for a trainer, which is not supported.
    Trainer,
    /// No image has been loaded.
    NotLoaded,
}

/// The cartridge hardware an image declares.
#[derive(PartialEq, Eq, Structural, Debug, Clone, Copy)]
pub enum MapperType {
    NROM,
    UNKNOWN(u16),
}

/// Bytes 4 to 15 of an image header.
#[derive(Clone, Copy)]
pub struct NESFileHeader {
    pub prg_rom_size_lsb: u8,
    pub chr_rom_size_lsb: u8,
    pub flags6: u8,
    pub flags7: u8,
    pub flags8: u8,
    pub flags9: u8,
    pub flags10: u8,
    pub flags11: u8,
    pub flags12: u8,
    pub flags13: u8,
    pub flags14: u8,
    pub flags15: u8,
}

/// High nibble of a byte.
pub open spec fn hi(b: u8) -> nat {
    b as nat / 16
}

/// Low nibble of a byte.
pub open spec fn lo(b: u8) -> nat {
    b as nat % 16
}

/// Size in the exponent-multiplier notation: 2^E * (2M + 1) with E the upper six
/// bits of `b` and M its lower two.
pub open spec fn exp_mult_size(b: u8) -> nat {
    pow2(b as nat / 4) * (2 * (b as nat % 4) + 1)
}

/// A size capped at the largest `usize`.
pub open spec fn capped(n: nat) -> usize {
    if n <= usize::MAX {
        n as usize
    } else {
        usize::MAX
    }
}

/// A RAM size given as a shift count: none for 0, else 64 << s.
pub open spec fn shift_size(s: nat) -> nat {
    if s == 0 {
        0
    } else {
        64 * pow2(s)
    }
}

fn size_from_shift(s: u8) -> (r: usize)
    requires
        s < 16,
    ensures
        r as nat == shift_size(s as nat),
{
    if s == 0 {
        0
    } else {
        proof {
            lemma2_to64();
            lemma_u64_shl_is_mul(64, s as u64);
        }
        (64u64 << s as u64) as usize
    }
}

fn size_from_exp_mult(b: u8) -> (r: usize)
    ensures
        r == capped(exp_mult_size(b)),
{
    let e: u64 = (b / 4) as u64;
    let m: u64 = (b % 4) as u64;
    proof {
        lemma_u64_pow2_no_overflow(e as nat);
        lemma_u64_shl_is_mul(1, e);
    }
    let p: u64 = 1u64 << e;
    match p.checked_mul(2 * m + 1) {
        Some(v) => if v <= usize::MAX as u64 {
            v as usize
        } else {
            usize::MAX
        },
        None => usize::MAX,
    }
}

impl NESFileHeader {
    /// Whether bits 2 and 3 of byte 7 hold the NES 2.0 mark (binary 10).
    pub open spec fn spec_is_nes20(&self) -> bool {
        (self.flags7 as nat / 4) % 4 == 2
    }

    pub open spec fn spec_mapper_number(&self) -> nat {
        if self.spec_is_nes20() {
            lo(self.flags8) * 256 + hi(self.flags7) * 16 + hi(self.flags6)
        } else {
            hi(self.flags6)
        }
    }

    /// Builds a header from bytes 4 to 15 of an image.
    pub fn from_slice(bytes: &[u8]) -> (r: NESFileHeader)
        requires
            bytes@.len() >= 12,
        ensures
            r.prg_rom_size_lsb == bytes@[0],
            r.chr_rom_size_lsb == bytes@[1],
            r.flags6 == bytes@[2],
            r.flags7 == bytes@[3],
            r.flags8 == bytes@[4],
            r.flags9 == bytes@[5],
            r.flags10 == bytes@[6],
            r.flags11 == bytes@[7],
            r.flags12 == bytes@[8],
            r.flags13 == bytes@[9],
            r.flags14 == bytes@[10],
            r.flags15 == bytes@[11],
    {
        NESFileHeader {
            prg_rom_size_lsb: bytes[0],
            chr_rom_size_lsb: bytes[1],
            flags6: bytes[2],
            flags7: bytes[3],
            flags8: bytes[4],
            flags9: bytes[5],
            flags10: bytes[6],
            flags11: bytes[7],
            flags12: bytes[8],
            flags13: bytes[9],
            flags14: bytes[10],
            flags15: bytes[11],
        }
    }

    /// Whether the header has the NES 2.0 format.
    pub fn is_nes20_format(&self) -> (r: bool)
        ensures
            r == self.spec_is_nes20(),
    {
        (self.flags7 / 4) % 4 == 2
    }

    /// Nametable arrangement, bit 0 of byte 6: false for vertical arrangement
    /// (horizontal mirroring), true for horizontal arrangement (vertical mirroring).
    pub fn nametable_layout(&self) -> (r: bool)
        ensures
            r == self.flags6.bit(0),
    {
        self.flags6.test_bit(0)
    }

    /// Whether battery-backed memory is present, bit 1 of byte 6.
    pub fn battery(&self) -> (r: bool)
        ensures
            r == self.flags6.bit(1),
    {
        self.flags6.test_bit(1)
    }

    /// Whether a 512-byte trainer sits between header and PRG-ROM, bit 2 of byte 6.
    pub fn trainer(&self) -> (r: bool)
        ensures
            r == self.flags6.bit(2),
    {
        self.flags6.test_bit(2)
    }

    /// Whether the alternative nametable layout is used, bit 3 of byte 6.
    pub fn alt_nametable_layout(&self) -> (r: bool)
        ensures
            r == self.flags6.bit(3),
    {
        self.flags6.test_bit(3)
    }

    /// The mapper number: high nibble of byte 6 and, in NES 2.0, high nibble of
    /// byte 7 and low nibble of byte 8 above it.
    pub fn mapper_number(&self) -> (r: u16)
        ensures
            r as nat == self.spec_mapper_number(),
    {
        let m0 = (self.flags6 / 16) as u16;
        if !self.is_nes20_format() {
            m0
        } else {
            let m1 = (self.flags7 / 16) as u16;
            let m2 = (self.flags8 % 16) as u16;
            m2 * 256 + m1 * 16 + m0
        }
    }

    /// The submapper number, high nibble of byte 8 (NES 2.0 only, else 0).
    pub fn submapper_number(&self) -> (r: u8)
        ensures
            r as nat == if self.spec_is_nes20() { hi(self.flags8) } else { 0 },
    {
        if self.is_nes20_format() {
            self.flags8 / 16
        } else {
            0
        }
    }

    /// The console type, bits 0 and 1 of byte 7; in NES 2.0 a value of 3 is
    /// extended by the low nibble of byte 13 placed above those two bits.
    pub fn console_type(&self) -> (r: u8)
        ensures
            r as nat == if self.spec_is_nes20() && self.flags7 % 4 == 3 {
                lo(self.flags13) * 4 + 3
            } else {
                self.flags7 as nat % 4
            },
    {
        let val = self.flags7 % 4;
        if self.is_nes20_format() && val == 3 {
            (self.flags13 % 16) * 4 + val
        } else {
            val
        }
    }

    pub open spec fn spec_prg_rom_size(&self) -> usize {
        if !self.spec_is_nes20() {
            (self.prg_rom_size_lsb as nat * PRG_ROM_UNIT as nat) as usize
        } else if lo(self.flags9) == 15 {
            capped(exp_mult_size(self.prg_rom_size_lsb))
        } else {
            ((lo(self.flags9) * 256 + self.prg_rom_size_lsb as nat) * PRG_ROM_UNIT as nat) as usize
        }
    }

    pub open spec fn spec_chr_rom_size(&self) -> usize {
        if !self.spec_is_nes20() {
            (self.chr_rom_size_lsb as nat * CHR_ROM_UNIT as nat) as usize
        } else if hi(self.flags9) == 15 {
            capped(exp_mult_size(self.chr_rom_size_lsb))
        } else {
            ((hi(self.flags9) * 256 + self.chr_rom_size_lsb as nat) * CHR_ROM_UNIT as nat) as usize
        }
    }

    /// Size of PRG-ROM in bytes: 16 KiB units, or the exponent-multiplier
    /// notation when the NES 2.0 MSB nibble is 0xF (capped at `usize::MAX`).
    pub fn prg_rom_size(&self) -> (r: usize)
        ensures
            r == self.spec_prg_rom_size(),
    {
        if !self.is_nes20_format() {
            self.prg_rom_size_lsb as usize * PRG_ROM_UNIT
        } else if self.flags9 % 16 == 15 {
            size_from_exp_mult(self.prg_rom_size_lsb)
        } else {
            let units = ((self.flags9 % 16) as usize) * 256 + self.prg_rom_size_lsb as usize;
            units * PRG_ROM_UNIT
        }
    }

    /// Size of CHR-ROM in bytes: 8 KiB units, or the exponent-multiplier
    /// notation when the NES 2.0 MSB nibble is 0xF (capped at `usize::MAX`).
    pub fn chr_rom_size(&self) -> (r: usize)
        ensures
            r == self.spec_chr_rom_size(),
    {
        if !self.is_nes20_format() {
            self.chr_rom_size_lsb as usize * CHR_ROM_UNIT
        } else if self.flags9 / 16 == 15 {
            size_from_exp_mult(self.chr_rom_size_lsb)
        } else {
            let units = ((self.flags9 / 16) as usize) * 256 + self.chr_rom_size_lsb as usize;
            units * CHR_ROM_UNIT
        }
    }

    pub open spec fn spec_prg_ram_size(&self) -> nat {
        if self.spec_is_nes20() {
            shift_size(lo(self.flags10))
        } else {
            0
        }
    }

    /// PRG-RAM (volatile) size in bytes, from the low nibble of byte 10 (NES 2.0 only).
    pub fn prg_ram_size(&self) -> (r: usize)
        ensures
            r as nat == self.spec_prg_ram_size(),
    {
        if self.is_nes20_format() {
            size_from_shift(self.flags10 % 16)
        } else {
            0
        }
    }

    /// PRG-NVRAM/EEPROM size in bytes, from the high nibble of byte 10 (NES 2.0 only).
    pub fn prg_nvram_eeprom_size(&self) -> (r: usize)
        ensures
            r as nat == if self.spec_is_nes20() { shift_size(hi(self.flags10)) } else { 0 },
    {
        if self.is_nes20_format() {
            size_from_shift(self.flags10 / 16)
        } else {
            0
        }
    }

    /// CHR-RAM (volatile) size in bytes, from the low nibble of byte 11 (NES 2.0 only).
    pub fn chr_ram_size(&self) -> (r: usize)
        ensures
            r as nat == if self.spec_is_nes20() { shift_size(lo(self.flags11)) } else { 0 },
    {
        if self.is_nes20_format() {
            size_from_shift(self.flags11 % 16)
        } else {
            0
        }
    }

    /// CHR-NVRAM size in bytes, from the high nibble of byte 11 (NES 2.0 only).
    pub fn chr_nvram_size(&self) -> (r: usize)
        ensures
            r as nat == if self.spec_is_nes20() { shift_size(hi(self.flags11)) } else { 0 },
    {
        if self.is_nes20_format() {
            size_from_shift(self.flags11 / 16)
        } else {
            0
        }
    }

    /// CPU/PPU timing mode, bits 0 and 1 of byte 12 (NES 2.0 only): 0 NTSC,
    /// 1 PAL, 2 multiple regions, 3 Dendy.
    pub fn cpu_ppu_timing_mode(&self) -> (r: u8)
        ensures
            r as nat == if self.spec_is_nes20() { self.flags12 as nat % 4 } else { 0 },
    {
        if self.is_nes20_format() {
            self.flags12 % 4
        } else {
            0
        }
    }

    /// Number of miscellaneous ROMs, bits 0 and 1 of byte 14 (NES 2.0 only).
    pub fn misc_roms_count(&self) -> (r: u8)
        ensures
            r as nat == if self.spec_is_nes20() { self.flags14 as nat % 4 } else { 0 },
    {
        if self.is_nes20_format() {
            self.flags14 % 4
        } else {
            0
        }
    }

    /// Default expansion device, bits 0 to 5 of byte 15 (NES 2.0 only).
    pub fn default_expansion_device(&self) -> (r: u8)
        ensures
            r as nat == if self.spec_is_nes20() { self.flags15 as nat % 64 } else { 0 },
    {
        if self.is_nes20_format() {
            self.flags15 % 64
        } else {
            0
        }
    }
}

/// The header of an image given as bytes (the identifier included).
pub open spec fn header_of(b: Seq<u8>) -> NESFileHeader {
    NESFileHeader {
        prg_rom_size_lsb: b[4],
        chr_rom_size_lsb: b[5],
        flags6: b[6],
        flags7: b[7],
        flags8: b[8],
        flags9: b[9],
        flags10: b[10],
        flags11: b[11],
        flags12: b[12],
        flags13: b[13],
        flags14: b[14],
        flags15: b[15],
    }
}

/// A loaded image: its header and everything after it.
pub struct NESFile {
    pub header: NESFileHeader,
    pub data: Vec<u8>,
}

impl NESFile {
    pub open spec fn spec_mapper_type(&self) -> MapperType {
        if self.header.spec_mapper_number() == 0 {
            MapperType::NROM
        } else {
            MapperType::UNKNOWN(self.header.spec_mapper_number() as u16)
        }
    }

    /// Splits an image into header and data; fails on a missing identifier or an
    /// image shorter than the header.
    pub fn from_vec(bytes: Vec<u8>) -> (r: Result<NESFile, LoadError>)
        ensures
            bytes@.len() < HEADER_SIZE ==> r == Err::<NESFile, LoadError>(LoadError::Truncated),
            bytes@.len() >= HEADER_SIZE && !has_identifier(bytes@) ==> r == Err::<NESFile, LoadError>(
                LoadError::BadIdentifier,
            ),
            bytes@.len() >= HEADER_SIZE && has_identifier(bytes@) ==> r is Ok
                && r->Ok_0.header == header_of(bytes@)
                && r->Ok_0.data@ == bytes@.subrange(HEADER_SIZE as int, bytes@.len() as int),
    {
        let mut bytes = bytes;
        if bytes.len() < HEADER_SIZE {
            return Err(LoadError::Truncated);
        }
        if !(bytes[0] == 0x4e && bytes[1] == 0x45 && bytes[2] == 0x53 && bytes[3] == 0x1a) {
            return Err(LoadError::BadIdentifier);
        }
        let data = bytes.split_off(HEADER_SIZE);
        let header = NESFileHeader::from_slice(&bytes.as_slice()[4..16]);
        Ok(NESFile { header, data })
    }

    /// The mapper the header declares: mapper number 0 is NROM.
    pub fn mapper_type(&self) -> (r: MapperType)
        ensures
            r == self.spec_mapper_type(),
    {
        match self.header.mapper_number() {
            0 => MapperType::NROM,
            i => MapperType::UNKNOWN(i),
        }
    }
}

} // verus!
