//! The picture unit's byte-wide control, mask and status registers, packed
//! and unpacked by explicit bit positions.
//!
//! Control (written at 0x2000): bits 0-1 base nametable, bit 2 VRAM increment
//! (1 or 32), bit 3 sprite pattern table, bit 4 background pattern table,
//! bit 5 sprite size, bit 6 master/slave (not kept), bit 7 NMI enable.
//!
//! Mask (written at 0x2001): bit 0 grayscale, bit 1 background in the leftmost
//! column, bit 2 sprites in the leftmost column, bit 3 background enable,
//! bit 4 sprite enable, bits 5-7 red, green and blue emphasis.
//!
//! Status (read at 0x2002): bit 5 sprite overflow, bit 6 sprite-0 hit,
//! bit 7 vblank.

use crate::bits::{lemma_zero_has_no_bits, Bitwise};
use vstd::prelude::*;

verus! {

/// Base of the second pattern table.
pub const PATTERN_TABLE_SIZE: u16 = 0x1000;

/// 1 for true, 0 for false.
pub open spec fn b2n(b: bool) -> nat {
    if b {
        1
    } else {
        0
    }
}

/// Unpacked control register.
#[derive(Clone, Copy)]
pub struct PPUControl {
    pub nametable_addr: u16,
    pub vram_addr_inc: u8,
    pub spr_pattern_addr: u16,
    pub bg_pattern_addr: u16,
    pub sprites_large: bool,
    pub nmi_enable: bool,
}

impl PPUControl {
    /// Every field holds one of the values that some byte unpacks to.
    pub open spec fn wf(&self) -> bool {
        0x2000 <= self.nametable_addr <= 0x2c00 && (self.nametable_addr - 0x2000) % 0x400 == 0
            && (self.vram_addr_inc == 1 || self.vram_addr_inc == 32) && (self.spr_pattern_addr == 0
            || self.spr_pattern_addr == PATTERN_TABLE_SIZE) && (self.bg_pattern_addr == 0
            || self.bg_pattern_addr == PATTERN_TABLE_SIZE)
    }

    pub open spec fn spec_from_byte(val: u8) -> PPUControl {
        PPUControl {
            nametable_addr: (0x2000 + (val as nat % 4) * 0x400) as u16,
            vram_addr_inc: if val.bit(2) { 32u8 } else { 1u8 },
            spr_pattern_addr: if val.bit(3) { PATTERN_TABLE_SIZE } else { 0u16 },
            bg_pattern_addr: if val.bit(4) { PATTERN_TABLE_SIZE } else { 0u16 },
            sprites_large: val.bit(5),
            nmi_enable: val.bit(7),
        }
    }

    /// Unpacks a control byte.
    pub fn from_byte(val: u8) -> (r: PPUControl)
        ensures
            r == PPUControl::spec_from_byte(val),
            r.wf(),
            r.nametable_addr == 0x2000 + (val % 4) as u16 * 0x400,
            r.vram_addr_inc == if val.bit(2) { 32u8 } else { 1u8 },
            r.spr_pattern_addr == if val.bit(3) { PATTERN_TABLE_SIZE } else { 0u16 },
            r.bg_pattern_addr == if val.bit(4) { PATTERN_TABLE_SIZE } else { 0u16 },
            r.sprites_large == val.bit(5),
            r.nmi_enable == val.bit(7),
            val == 0 ==> r.spec_byte() == 0,
    {
        proof {
            if val == 0 {
                lemma_zero_has_no_bits(2);
                lemma_zero_has_no_bits(3);
                lemma_zero_has_no_bits(4);
                lemma_zero_has_no_bits(5);
                lemma_zero_has_no_bits(7);
            }
        }
        PPUControl {
            nametable_addr: 0x2000 + (val % 4) as u16 * 0x400,
            vram_addr_inc: if val.test_bit(2) {
                32
            } else {
                1
            },
            spr_pattern_addr: if val.test_bit(3) {
                PATTERN_TABLE_SIZE
            } else {
                0
            },
            bg_pattern_addr: if val.test_bit(4) {
                PATTERN_TABLE_SIZE
            } else {
                0
            },
            sprites_large: val.test_bit(5),
            nmi_enable: val.test_bit(7),
        }
    }

    pub open spec fn spec_byte(&self) -> nat {
        ((self.nametable_addr - 0x2000) as nat) / 0x400 + 4 * b2n(self.vram_addr_inc == 32) + 8 * b2n(
            self.spr_pattern_addr == PATTERN_TABLE_SIZE,
        ) + 16 * b2n(self.bg_pattern_addr == PATTERN_TABLE_SIZE) + 32 * b2n(self.sprites_large)
            + 128 * b2n(self.nmi_enable)
    }

    /// Packs the register into a byte (bit 6 reads as 0).
    pub fn to_byte(&self) -> (r: u8)
        requires
            self.wf(),
        ensures
            r as nat == self.spec_byte(),
    {
        let mut r: u8 = ((self.nametable_addr - 0x2000) / 0x400) as u8;
        if self.vram_addr_inc == 32 {
            r = r + 4;
        }
        if self.spr_pattern_addr == PATTERN_TABLE_SIZE {
            r = r + 8;
        }
        if self.bg_pattern_addr == PATTERN_TABLE_SIZE {
            r = r + 16;
        }
        if self.sprites_large {
            r = r + 32;
        }
        if self.nmi_enable {
            r = r + 128;
        }
        r
    }
}

/// Unpacked mask register.
#[derive(Clone, Copy)]
pub struct PPUMask {
    pub grayscale: bool,
    pub bg_mask: bool,
    pub sprites_mask: bool,
    pub bg_enable: bool,
    pub sprites_enable: bool,
    pub emphasize_red: bool,
    pub emphasize_green: bool,
    pub emphasize_blue: bool,
}

impl PPUMask {
    pub open spec fn spec_from_byte(val: u8) -> PPUMask {
        PPUMask {
            grayscale: val.bit(0),
            bg_mask: val.bit(1),
            sprites_mask: val.bit(2),
            bg_enable: val.bit(3),
            sprites_enable: val.bit(4),
            emphasize_red: val.bit(5),
            emphasize_green: val.bit(6),
            emphasize_blue: val.bit(7),
        }
    }

    /// Unpacks a mask byte.
    pub fn from_byte(val: u8) -> (r: PPUMask)
        ensures
            r == PPUMask::spec_from_byte(val),
            r.grayscale == val.bit(0),
            r.bg_mask == val.bit(1),
            r.sprites_mask == val.bit(2),
            r.bg_enable == val.bit(3),
            r.sprites_enable == val.bit(4),
            r.emphasize_red == val.bit(5),
            r.emphasize_green == val.bit(6),
            r.emphasize_blue == val.bit(7),
            val == 0 ==> r.spec_byte() == 0,
    {
        proof {
            if val == 0 {
                lemma_zero_has_no_bits(0);
                lemma_zero_has_no_bits(1);
                lemma_zero_has_no_bits(2);
                lemma_zero_has_no_bits(3);
                lemma_zero_has_no_bits(4);
                lemma_zero_has_no_bits(5);
                lemma_zero_has_no_bits(6);
                lemma_zero_has_no_bits(7);
            }
        }
        PPUMask {
            grayscale: val.test_bit(0),
            bg_mask: val.test_bit(1),
            sprites_mask: val.test_bit(2),
            bg_enable: val.test_bit(3),
            sprites_enable: val.test_bit(4),
            emphasize_red: val.test_bit(5),
            emphasize_green: val.test_bit(6),
            emphasize_blue: val.test_bit(7),
        }
    }

    pub open spec fn spec_byte(&self) -> nat {
        b2n(self.grayscale) + 2 * b2n(self.bg_mask) + 4 * b2n(self.sprites_mask) + 8 * b2n(
            self.bg_enable,
        ) + 16 * b2n(self.sprites_enable) + 32 * b2n(self.emphasize_red) + 64 * b2n(
            self.emphasize_green,
        ) + 128 * b2n(self.emphasize_blue)
    }

    /// Packs the register into a byte.
    pub fn to_byte(&self) -> (r: u8)
        ensures
            r as nat == self.spec_byte(),
    {
        let mut r: u8 = 0;
        if self.grayscale {
            r = r + 1;
        }
        if self.bg_mask {
            r = r + 2;
        }
        if self.sprites_mask {
            r = r + 4;
        }
        if self.bg_enable {
            r = r + 8;
        }
        if self.sprites_enable {
            r = r + 16;
        }
        if self.emphasize_red {
            r = r + 32;
        }
        if self.emphasize_green {
            r = r + 64;
        }
        if self.emphasize_blue {
            r = r + 128;
        }
        r
    }
}

/// Unpacked status register.
#[derive(Clone, Copy)]
pub struct PPUStatus {
    pub sprite_overflow: bool,
    pub sprite_0_hit: bool,
    pub vblank: bool,
}

impl PPUStatus {
    pub open spec fn spec_byte(&self) -> nat {
        32 * b2n(self.sprite_overflow) + 64 * b2n(self.sprite_0_hit) + 128 * b2n(self.vblank)
    }

    /// Packs the three flags into bits 5 to 7; the rest read as 0.
    pub fn to_byte(&self) -> (r: u8)
        ensures
            r as nat == self.spec_byte(),
    {
        let mut r: u8 = 0;
        if self.sprite_overflow {
            r = r + 32;
        }
        if self.sprite_0_hit {
            r = r + 64;
        }
        if self.vblank {
            r = r + 128;
        }
        r
    }
}

} // verus!
