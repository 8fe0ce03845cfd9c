//! The picture processing unit: scanline/dot timing, the byte-wide ports the
//! processor sees, palette and object attribute memory, and the background
//! pixel pipeline that fills the frame buffer.

use crate::mapper::{Mapper, VRAM_SIZE};
use crate::mem::MemMap;
use crate::ppu_regs::{PPUControl, PPUMask, PPUStatus};
use vstd::arithmetic::power2::pow2;
use vstd::prelude::*;

verus! {

/// Bytes of palette RAM.
pub const PALETTE_RAM_SIZE: usize = 0x20;

/// Bytes of object attribute memory: 64 sprites of 4 bytes.
pub const OAM_SIZE: usize = 256;

/// Width of the picture in pixels.
pub const PICTURE_WIDTH: usize = 256;

/// Height of the picture in pixels.
pub const PICTURE_HEIGHT: usize = 240;

/// Bytes of the RGB frame buffer.
pub const FRAME_BUF_SIZE: usize = PICTURE_WIDTH * PICTURE_HEIGHT * 3;

/// Dots in one scanline.
pub const SCANLINE_DURATION: u32 = 341;

/// Scanlines in one frame.
pub const FRAME_SCANLINES: u32 = 262;

/// Dots in one frame.
pub const FRAME_DOTS: u64 = 89342;

/// The scanline at which the picture is complete.
pub const POST_RENDER_SCANLINE: u32 = 240;

pub const ADDRESS_PPUCTRL: u16 = 0x2000;
pub const ADDRESS_PPUMASK: u16 = 0x2001;
pub const ADDRESS_PPUSTATUS: u16 = 0x2002;
pub const ADDRESS_OAMADDR: u16 = 0x2003;
pub const ADDRESS_OAMDATA: u16 = 0x2004;
pub const ADDRESS_PPUSCROLL: u16 = 0x2005;
pub const ADDRESS_PPUADDR: u16 = 0x2006;
pub const ADDRESS_PPUDATA: u16 = 0x2007;
pub const ADDRESS_OAMDMA: u16 = 0x4014;

/// RGB values of the 64 colors, three bytes each.
pub const PALETTE_COLORS: [u8; 192] = [
    0x66, 0x66, 0x66, 0x00, 0x2a, 0x88, 0x14, 0x12, 0xa7, 0x3b, 0x00, 0xa4, 0x5c, 0x00, 0x7e, 0x6e,
    0x00, 0x40, 0x6c, 0x06, 0x00, 0x56, 0x1d, 0x00, 0x33, 0x35, 0x00, 0x0b, 0x48, 0x00, 0x00, 0x52,
    0x00, 0x00, 0x4f, 0x08, 0x00, 0x40, 0x4d, 0x00, 0x00, 0x00, 0x00, 0x00, 0x00, 0x00, 0x00, 0x00,
    0xad, 0xad, 0xad, 0x15, 0x5f, 0xd9, 0x42, 0x40, 0xff, 0x75, 0x27, 0xfe, 0xa0, 0x1a, 0xcc, 0xb7,
    0x1e, 0x7b, 0xb5, 0x31, 0x20, 0x99, 0x4e, 0x00, 0x6b, 0x6d, 0x00, 0x38, 0x87, 0x00, 0x0c, 0x93,
    0x00, 0x00, 0x8f, 0x32, 0x00, 0x7c, 0x8d, 0x00, 0x00, 0x00, 0x00, 0x00, 0x00, 0x00, 0x00, 0x00,
    0xff, 0xfe, 0xff, 0x64, 0xb0, 0xff, 0x92, 0x90, 0xff, 0xc6, 0x76, 0xff, 0xf3, 0x6a, 0xff, 0xfe,
    0x6e, 0xcc, 0xfe, 0x81, 0x70, 0xea, 0x9e, 0x22, 0xbc, 0xbe, 0x00, 0x88, 0xd8, 0x00, 0x5c, 0xe4,
    0x30, 0x45, 0xe0, 0x82, 0x48, 0xcd, 0xde, 0x4f, 0x4f, 0x4f, 0x00, 0x00, 0x00, 0x00, 0x00, 0x00,
    0xff, 0xfe, 0xff, 0xc0, 0xdf, 0xff, 0xd3, 0xd2, 0xff, 0xe8, 0xc8, 0xff, 0xfb, 0xc2, 0xff, 0xfe,
    0xc4, 0xea, 0xfe, 0xcc, 0xc5, 0xf7, 0xd8, 0xa5, 0xe4, 0xe5, 0x94, 0xcf, 0xef, 0x96, 0xbd, 0xf4,
    0xab, 0xb3, 0xf3, 0xcc, 0xb5, 0xeb, 0xf2, 0xb8, 0xb8, 0xb8, 0x00, 0x00, 0x00, 0x00, 0x00, 0x00,
];

// ---------------------------------------------------------------------------
// The 15-bit "loopy" address: coarse X in bits 0-4, coarse Y in bits 5-9,
// nametable select in bits 10-11, fine Y in bits 12-14.

pub open spec fn coarse_x(v: u16) -> nat {
    v as nat % 32
}

pub open spec fn coarse_y(v: u16) -> nat {
    (v as nat / 32) % 32
}

pub open spec fn nt_x(v: u16) -> nat {
    (v as nat / 1024) % 2
}

pub open spec fn nt_y(v: u16) -> nat {
    (v as nat / 2048) % 2
}

pub open spec fn fine_y(v: u16) -> nat {
    (v as nat / 4096) % 8
}

/// The loopy address with the given parts.
pub open spec fn loopy(cx: nat, cy: nat, nx: nat, ny: nat, fy: nat) -> u16 {
    (cx + 32 * cy + 1024 * nx + 2048 * ny + 4096 * fy) as u16
}

/// Horizontal increment: coarse X + 1, wrapping at 31 into the other
/// horizontal nametable.
pub open spec fn inc_hori_spec(v: u16) -> u16 {
    if coarse_x(v) == 31 {
        loopy(0, coarse_y(v), (1 - nt_x(v)) as nat, nt_y(v), fine_y(v))
    } else {
        loopy(coarse_x(v) + 1, coarse_y(v), nt_x(v), nt_y(v), fine_y(v))
    }
}

/// Vertical increment: fine Y + 1; past 7, coarse Y + 1, wrapping at 29 into
/// the other vertical nametable and at 31 without switching.
pub open spec fn inc_vert_spec(v: u16) -> u16 {
    if fine_y(v) < 7 {
        loopy(coarse_x(v), coarse_y(v), nt_x(v), nt_y(v), fine_y(v) + 1)
    } else if coarse_y(v) == 29 {
        loopy(coarse_x(v), 0, nt_x(v), (1 - nt_y(v)) as nat, 0)
    } else if coarse_y(v) == 31 {
        loopy(coarse_x(v), 0, nt_x(v), nt_y(v), 0)
    } else {
        loopy(coarse_x(v), coarse_y(v) + 1, nt_x(v), nt_y(v), 0)
    }
}

/// `v` with coarse X and the horizontal nametable taken from `t`.
pub open spec fn copy_hori_spec(v: u16, t: u16) -> u16 {
    loopy(coarse_x(t), coarse_y(v), nt_x(t), nt_y(v), fine_y(v))
}

/// `v` with coarse Y, fine Y and the vertical nametable taken from `t`.
pub open spec fn copy_vert_spec(v: u16, t: u16) -> u16 {
    loopy(coarse_x(v), coarse_y(t), nt_x(v), nt_y(t), fine_y(t))
}

/// Dots of a rendering line during which the fetch pipeline runs.
pub open spec fn is_fetch_dot(d: nat) -> bool {
    (1 <= d <= 256) || (321 <= d <= 336)
}

/// Lines that run the fetch pipeline: the visible ones and the pre-render line.
pub open spec fn is_render_line(sl: nat) -> bool {
    sl <= 239 || sl == 261
}

/// `v` after the fetch-pipeline part of the dot (`sl`, `d`): horizontal
/// increments every eighth fetch dot, the vertical increment at dot 256 and
/// the horizontal copy from `t` at dot 257, all only while rendering.
pub open spec fn v_after_fetch(v: u16, t: u16, sl: nat, d: nat, en: bool) -> u16 {
    let on = is_render_line(sl) && en;
    let v1 = if on && is_fetch_dot(d) && d % 8 == 0 {
        inc_hori_spec(v)
    } else {
        v
    };
    let v2 = if on && d == 256 {
        inc_vert_spec(v1)
    } else {
        v1
    };
    if on && d == 257 {
        copy_hori_spec(v2, t)
    } else {
        v2
    }
}

/// `v` after the dot (`sl`, `d`): the fetch pipeline, then on the pre-render
/// line the vertical copy from `t` during dots 280 to 304.
pub open spec fn v_after_dot(v: u16, t: u16, sl: nat, d: nat, en: bool) -> u16 {
    let w = v_after_fetch(v, t, sl, d, en);
    if sl == 261 && 280 <= d <= 304 {
        copy_vert_spec(w, t)
    } else {
        w
    }
}

/// The vblank flag after the dot (`sl`, `d`): set at scanline 241 dot 1,
/// cleared at scanline 261 dot 1.
pub open spec fn vblank_after_dot(vb: bool, sl: nat, d: nat) -> bool {
    if sl == 241 && d == 1 {
        true
    } else if sl == 261 && d == 1 {
        false
    } else {
        vb
    }
}

/// The (scanline, dot) that follows (`sl`, `d`).
pub open spec fn next_pos(sl: nat, d: nat) -> (nat, nat) {
    if d + 1 < SCANLINE_DURATION {
        (sl, d + 1)
    } else if sl + 1 < FRAME_SCANLINES {
        (sl + 1, 0)
    } else {
        (0, 0)
    }
}

/// Palette RAM after writing `val` at index `i`; indices 0, 4, 8 and 12 are
/// shared with 16, 20, 24 and 28.
pub open spec fn pal_written(pal: Seq<u8>, i: int, val: u8) -> Seq<u8> {
    if i % 4 == 0 {
        pal.update(i, val).update((i + 16) % 32, val)
    } else {
        pal.update(i, val)
    }
}

/// The 2-bit background pixel at fine-x offset `x` of the pattern shift registers.
pub open spec fn bg_bits(lo: u16, hi: u16, x: nat) -> nat {
    (lo as nat / pow2((15 - x) as nat)) % 2 + 2 * ((hi as nat / pow2((15 - x) as nat)) % 2)
}

/// The 2-bit palette selector of the attribute byte `attr` for the tile at
/// (`tile_x`, `tile_y`): one of its four 2-bit fields, by quadrant.
pub open spec fn attr_quadrant(attr: u8, tile_x: nat, tile_y: nat) -> nat {
    let q = ((tile_y / 2) % 2) * 2 + (tile_x / 2) % 2;
    (attr as nat / pow2(2 * q)) % 4
}

/// Palette RAM index of a pixel: the universal background color for pixel
/// value 0, else the palette's entry.
pub open spec fn palette_index(sprite: bool, pal_idx: nat, pix_val: nat) -> nat {
    if pix_val == 0 {
        if sprite { 16 } else { 0 }
    } else {
        (if sprite { 16nat } else { 0nat }) + pal_idx * 4 + pix_val
    }
}

/// A color with the grayscale mask applied or not.
pub open spec fn masked_color(c: u8, grayscale: bool) -> u8 {
    if grayscale {
        c & 0x30
    } else {
        c
    }
}

/// Internal registers of the unit.
pub struct Registers {
    pub control: PPUControl,
    pub mask: PPUMask,
    pub status: PPUStatus,
    pub oam_addr: u8,
    pub oam_data: u8,
    pub oam_dma: u8,
    pub io_bus: u8,
    pub v: u16,
    pub t: u16,
    pub scroll_x: u8,
    pub write_toggle: bool,
    pub addr_bus: u16,
    pub read_buf: u8,
}

impl Registers {
    pub open spec fn wf(&self) -> bool {
        self.control.wf() && self.v < 0x8000 && self.t < 0x8000 && self.scroll_x < 8
    }

    /// Power-on values: everything zero.
    pub fn new() -> (r: Registers)
        ensures
            r.wf(),
            r.v == 0 && r.t == 0 && r.scroll_x == 0 && !r.write_toggle,
            r.control.spec_byte() == 0 && r.mask.spec_byte() == 0 && r.status.spec_byte() == 0,
    {
        Registers {
            control: PPUControl::from_byte(0),
            mask: PPUMask::from_byte(0),
            status: PPUStatus { sprite_overflow: false, sprite_0_hit: false, vblank: false },
            oam_addr: 0,
            oam_data: 0,
            oam_dma: 0,
            io_bus: 0,
            v: 0,
            t: 0,
            scroll_x: 0,
            write_toggle: false,
            addr_bus: 0,
            read_buf: 0,
        }
    }
}

pub struct PPU {
    pub reg: Registers,
    pub pal: Vec<u8>,
    pub oam: Vec<u8>,
    pub vram: Vec<u8>,
    /// Current dot of the scanline, 0 to 340.
    pub cycle: u32,
    /// Current scanline, 0 to 261.
    pub scanline: u32,
    pub frame: u64,
    pub curr_tile_idx: u8,
    pub prev_attribute_byte: u8,
    pub curr_attribute_byte: u8,
    pub temp_attribute_byte: u8,
    pub curr_pattern_lo: u8,
    pub curr_pattern_hi: u8,
    pub shift_reg_lo: u16,
    pub shift_reg_hi: u16,
    pub frame_buf: Vec<u8>,
}

impl PPU {
    pub open spec fn wf(&self) -> bool {
        &&& self.reg.wf()
        &&& self.pal@.len() == PALETTE_RAM_SIZE
        &&& self.oam@.len() == OAM_SIZE
        &&& self.vram@.len() == VRAM_SIZE
        &&& self.frame_buf@.len() == FRAME_BUF_SIZE
        &&& self.cycle < SCANLINE_DURATION
        &&& self.scanline < FRAME_SCANLINES
    }

    /// Position within the frame, in dots.
    pub open spec fn dot_pos(&self) -> int {
        self.scanline as int * SCANLINE_DURATION as int + self.cycle as int
    }

    /// Total dots since frame 0 began.
    pub open spec fn dots(&self) -> int {
        self.frame as int * FRAME_DOTS as int + self.dot_pos()
    }

    pub open spec fn rendering(&self) -> bool {
        self.reg.mask.bg_enable || self.reg.mask.sprites_enable
    }

    /// What the processor sees of the unit that no dot changes: memories,
    /// control and mask, the latched address and the port state.
    pub open spec fn same_memory(&self, o: &PPU) -> bool {
        &&& self.pal == o.pal
        &&& self.oam == o.oam
        &&& self.vram == o.vram
        &&& self.reg.control == o.reg.control
        &&& self.reg.mask == o.reg.mask
        &&& self.reg.t == o.reg.t
        &&& self.reg.scroll_x == o.reg.scroll_x
        &&& self.reg.write_toggle == o.reg.write_toggle
        &&& self.reg.read_buf == o.reg.read_buf
        &&& self.reg.oam_addr == o.reg.oam_addr
        &&& self.reg.oam_dma == o.reg.oam_dma
        &&& self.reg.io_bus == o.reg.io_bus
        &&& self.reg.status.sprite_overflow == o.reg.status.sprite_overflow
        &&& self.reg.status.sprite_0_hit == o.reg.status.sprite_0_hit
    }

    /// The byte at `addr` of the unit's 14-bit address space: pattern data,
    /// nametables (0x3000-0x3EFF mirroring 0x2000-0x2EFF), and palette RAM
    /// mirrored every 32 bytes from 0x3F00.
    pub open spec fn peek_vram(&self, addr: u16, mem: &MemMap) -> u8 {
        let a = addr as int % 0x4000;
        if a < 0x2000 {
            mem.mapper.chr_peek(a as u16)
        } else if a < 0x3f00 {
            mem.mapper.nt_peek((0x2000 + (a - 0x2000) % 0x1000) as u16, self.vram@)
        } else {
            self.pal@[(a - 0x3f00) % 32]
        }
    }

    /// Whether `addr` falls in the palette region of the 14-bit space.
    pub open spec fn is_palette_addr(addr: u16) -> bool {
        addr as int % 0x4000 >= 0x3f00
    }

    pub fn new() -> (r: PPU)
        ensures
            r.wf(),
            r.cycle == 0 && r.scanline == 0 && r.frame == 0,
            r.pal@ == Seq::new(PALETTE_RAM_SIZE as nat, |i: int| 0u8),
            r.oam@ == Seq::new(OAM_SIZE as nat, |i: int| 0u8),
            !r.reg.status.vblank && !r.reg.control.nmi_enable,
    {
        let pal = vec![0u8; PALETTE_RAM_SIZE];
        let oam = vec![0u8; OAM_SIZE];
        proof {
            assert(pal@ =~= Seq::new(PALETTE_RAM_SIZE as nat, |i: int| 0u8));
            assert(oam@ =~= Seq::new(OAM_SIZE as nat, |i: int| 0u8));
        }
        PPU {
            reg: Registers::new(),
            pal,
            oam,
            vram: vec![0u8; VRAM_SIZE],
            cycle: 0,
            scanline: 0,
            frame: 0,
            curr_tile_idx: 0,
            prev_attribute_byte: 0,
            curr_attribute_byte: 0,
            temp_attribute_byte: 0,
            curr_pattern_lo: 0,
            curr_pattern_hi: 0,
            shift_reg_lo: 0,
            shift_reg_hi: 0,
            frame_buf: vec![0u8; FRAME_BUF_SIZE],
        }
    }

    /// Position after power-on: dot 25 of scanline 0 in frame 1.
    pub fn init(&mut self)
        requires
            old(self).wf(),
        ensures
            final(self).wf(),
            final(self).cycle == 25 && final(self).scanline == 0 && final(self).frame == 1,
            final(self).same_memory(&*old(self)),
            final(self).reg.v == old(self).reg.v,
            final(self).reg.status == old(self).reg.status,
    {
        self.cycle = 25;
        self.scanline = 0;
        self.frame = 1;
    }

    /// Clears control, mask, the write toggle and both loopy registers and
    /// returns to dot 0 of scanline 0 in frame 0.
    pub fn reset(&mut self)
        requires
            old(self).wf(),
        ensures
            final(self).wf(),
            final(self).cycle == 0 && final(self).scanline == 0 && final(self).frame == 0,
            final(self).reg.control.spec_byte() == 0 && final(self).reg.mask.spec_byte() == 0,
            !final(self).reg.write_toggle && final(self).reg.v == 0 && final(self).reg.t == 0,
            final(self).pal == old(self).pal && final(self).oam == old(self).oam,
            final(self).reg.status == old(self).reg.status,
    {
        self.reg.control = PPUControl::from_byte(0);
        self.reg.mask = PPUMask::from_byte(0);
        self.reg.write_toggle = false;
        self.reg.v = 0;
        self.reg.t = 0;
        self.cycle = 0;
        self.scanline = 0;
        self.frame = 0;
    }

    pub fn cycles(&self) -> (r: u32)
        ensures
            r == self.cycle,
    {
        self.cycle
    }

    pub fn scanlines(&self) -> (r: u32)
        ensures
            r == self.scanline,
    {
        self.scanline
    }

    pub fn frames(&self) -> (r: u64)
        ensures
            r == self.frame,
    {
        self.frame
    }

    pub fn is_vblank(&self) -> (r: bool)
        ensures
            r == self.reg.status.vblank,
    {
        self.reg.status.vblank
    }

    /// Whether the picture of this frame is complete (scanline 240).
    pub fn just_finished_rendering(&self) -> (r: bool)
        ensures
            r == (self.scanline == POST_RENDER_SCANLINE),
    {
        self.scanline == POST_RENDER_SCANLINE
    }

    /// Whether the unit asks for a non-maskable interrupt: in vblank with NMI enabled.
    pub fn should_do_nmi(&self) -> (r: bool)
        ensures
            r == (self.reg.status.vblank && self.reg.control.nmi_enable),
    {
        self.reg.status.vblank && self.reg.control.nmi_enable
    }

    pub fn nmi_enable(&self) -> (r: bool)
        ensures
            r == self.reg.control.nmi_enable,
    {
        self.reg.control.nmi_enable
    }

    /// The page last written to the DMA port.
    pub fn oamdma(&self) -> (r: u8)
        ensures
            r == self.reg.oam_dma,
    {
        self.reg.oam_dma
    }

    /// The RGB frame buffer, 256 x 240 pixels of three bytes.
    pub fn get_frame_buf(&self) -> (r: &Vec<u8>)
        ensures
            r == &self.frame_buf,
    {
        &self.frame_buf
    }
}

} // verus!
