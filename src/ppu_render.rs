//! The picture unit's dot clock: the background fetch pipeline, scroll
//! register arithmetic, pixel emission, and the scanline/dot/frame counters.

use crate::mapper::Memory;
use crate::mem::MemMap;
use crate::ppu::{
    attr_quadrant, bg_bits, coarse_x, coarse_y, copy_hori_spec, copy_vert_spec, fine_y,
    inc_hori_spec, inc_vert_spec, is_render_line, loopy, masked_color, nt_x, nt_y,
    palette_index, v_after_dot, v_after_fetch, vblank_after_dot, next_pos, Registers, FRAME_DOTS, FRAME_SCANLINES, PALETTE_COLORS,
    PICTURE_WIDTH, PPU, SCANLINE_DURATION,
};
use vstd::arithmetic::power2::lemma2_to64;
use vstd::bits::lemma_u16_shr_is_div;
use vstd::prelude::*;

verus! {

/// A 15-bit value is the loopy address of its parts.
proof fn lemma_loopy_parts(v: u16)
    requires
        v < 0x8000,
    ensures
        v == loopy(coarse_x(v), coarse_y(v), nt_x(v), nt_y(v), fine_y(v)),
        coarse_x(v) < 32,
        coarse_y(v) < 32,
        nt_x(v) < 2,
        nt_y(v) < 2,
        fine_y(v) < 8,
        v as nat / 4096 == fine_y(v),
        (v as nat / 1024) % 4 == nt_x(v) + 2 * nt_y(v),
{
    assert(v == v % 32 + 32 * ((v / 32) % 32) + 1024 * ((v / 1024) % 2) + 2048 * ((v / 2048) % 2)
        + 4096 * ((v / 4096) % 8)) by (bit_vector)
        requires
            v < 0x8000,
    ;
    assert(v / 4096 == (v / 4096) % 8) by (bit_vector)
        requires
            v < 0x8000,
    ;
    assert((v / 1024) % 4 == (v / 1024) % 2 + 2 * ((v / 2048) % 2)) by (bit_vector);
}

/// The parts of a loopy address built from parts in range.
proof fn lemma_loopy_fields(cx: nat, cy: nat, nx: nat, ny: nat, fy: nat)
    requires
        cx < 32,
        cy < 32,
        nx < 2,
        ny < 2,
        fy < 8,
    ensures
        loopy(cx, cy, nx, ny, fy) < 0x8000,
        coarse_x(loopy(cx, cy, nx, ny, fy)) == cx,
        coarse_y(loopy(cx, cy, nx, ny, fy)) == cy,
        nt_x(loopy(cx, cy, nx, ny, fy)) == nx,
        nt_y(loopy(cx, cy, nx, ny, fy)) == ny,
        fine_y(loopy(cx, cy, nx, ny, fy)) == fy,
{
    let v = loopy(cx, cy, nx, ny, fy);
    assert(v as nat == cx + 32 * cy + 1024 * nx + 2048 * ny + 4096 * fy);
    lemma_loopy_parts(v);
    let (a, b, c, d, e) = (coarse_x(v), coarse_y(v), nt_x(v), nt_y(v), fine_y(v));
    assert(a + 32 * b + 1024 * c + 2048 * d + 4096 * e == cx + 32 * cy + 1024 * nx + 2048 * ny
        + 4096 * fy);
    assert(a == cx && b == cy && c == nx && d == ny && e == fy) by (nonlinear_arith)
        requires
            a + 32 * b + 1024 * c + 2048 * d + 4096 * e == cx + 32 * cy + 1024 * nx + 2048 * ny
                + 4096 * fy,
            a < 32,
            b < 32,
            c < 2,
            d < 2,
            e < 8,
            cx < 32,
            cy < 32,
            nx < 2,
            ny < 2,
            fy < 8,
    ;
}

/// Nametable byte address for the tile that `v` points at.
pub open spec fn tile_addr(v: u16) -> u16 {
    (0x2000 + v as nat % 0x1000) as u16
}

/// Attribute byte address for the tile that `v` points at.
pub open spec fn attr_addr(v: u16) -> u16 {
    (0x23c0 + ((v as nat / 1024) % 4) * 0x400 + (coarse_y(v) / 4) * 8 + coarse_x(v) / 4) as u16
}

/// Low pattern byte address of tile `tile` at fine Y `fy` in the table at `bg`.
pub open spec fn pattern_addr(tile: u8, fy: nat, bg: u16) -> u16 {
    (bg as nat + tile as nat * 16 + fy) as u16
}

impl PPU {
    /// The pixel color the pipeline shows at the current dot: the background
    /// pixel at fine X from the shift registers (0 when the background is off),
    /// the palette chosen by the attribute byte, looked up in palette RAM.
    pub open spec fn next_pixel_spec(&self) -> u8 {
        let pix = if self.reg.mask.bg_enable {
            bg_bits(self.shift_reg_lo, self.shift_reg_hi, self.reg.scroll_x as nat)
        } else {
            0
        };
        let attr = if self.reg.scroll_x as nat + self.cycle as nat % 9 < 9 {
            self.prev_attribute_byte
        } else {
            self.curr_attribute_byte
        };
        let pal_idx = attr_quadrant(attr, self.cycle as nat / 8, self.scanline as nat / 8);
        masked_color(self.pal@[palette_index(false, pal_idx, pix) as int], self.reg.mask.grayscale)
    }

    fn inc_hori(&mut self)
        requires
            old(self).wf(),
        ensures
            final(self).wf(),
            *final(self) == (PPU {
                reg: Registers { v: inc_hori_spec(old(self).reg.v), ..old(self).reg },
                ..*old(self)
            }),
    {
        let v = self.reg.v;
        proof {
            lemma_loopy_parts(v);
        }
        if v % 32 == 31 {
            let base = v - 31;
            if (v / 1024) % 2 == 0 {
                self.reg.v = base + 1024;
            } else {
                self.reg.v = base - 1024;
            }
            proof {
                lemma_loopy_fields(0, coarse_y(v), (1 - nt_x(v)) as nat, nt_y(v), fine_y(v));
            }
        } else {
            self.reg.v = v + 1;
            proof {
                lemma_loopy_fields(coarse_x(v) + 1, coarse_y(v), nt_x(v), nt_y(v), fine_y(v));
            }
        }
    }

    fn inc_vert(&mut self)
        requires
            old(self).wf(),
        ensures
            final(self).wf(),
            *final(self) == (PPU {
                reg: Registers { v: inc_vert_spec(old(self).reg.v), ..old(self).reg },
                ..*old(self)
            }),
    {
        let v = self.reg.v;
        proof {
            lemma_loopy_parts(v);
        }
        if v / 4096 < 7 {
            self.reg.v = v + 4096;
            proof {
                lemma_loopy_fields(coarse_x(v), coarse_y(v), nt_x(v), nt_y(v), fine_y(v) + 1);
            }
        } else {
            let cy = (v / 32) % 32;
            let w = v - 4096 * 7 - 32 * cy;
            if cy == 29 {
                if (v / 2048) % 2 == 0 {
                    self.reg.v = w + 2048;
                } else {
                    self.reg.v = w - 2048;
                }
                proof {
                    lemma_loopy_fields(coarse_x(v), 0, nt_x(v), (1 - nt_y(v)) as nat, 0);
                }
            } else if cy == 31 {
                self.reg.v = w;
                proof {
                    lemma_loopy_fields(coarse_x(v), 0, nt_x(v), nt_y(v), 0);
                }
            } else {
                self.reg.v = w + 32 * (cy + 1);
                proof {
                    lemma_loopy_fields(coarse_x(v), coarse_y(v) + 1, nt_x(v), nt_y(v), 0);
                }
            }
        }
    }

    fn copy_hori(&mut self)
        requires
            old(self).wf(),
        ensures
            final(self).wf(),
            *final(self) == (PPU {
                reg: Registers { v: copy_hori_spec(old(self).reg.v, old(self).reg.t), ..old(self).reg },
                ..*old(self)
            }),
    {
        let v = self.reg.v;
        let t = self.reg.t;
        proof {
            lemma_loopy_parts(v);
            lemma_loopy_parts(t);
            lemma_loopy_fields(coarse_x(t), coarse_y(v), nt_x(t), nt_y(v), fine_y(v));
        }
        self.reg.v = v - v % 32 - 1024 * ((v / 1024) % 2) + t % 32 + 1024 * ((t / 1024) % 2);
    }

    fn copy_vert(&mut self)
        requires
            old(self).wf(),
        ensures
            final(self).wf(),
            *final(self) == (PPU {
                reg: Registers { v: copy_vert_spec(old(self).reg.v, old(self).reg.t), ..old(self).reg },
                ..*old(self)
            }),
    {
        let v = self.reg.v;
        let t = self.reg.t;
        proof {
            lemma_loopy_parts(v);
            lemma_loopy_parts(t);
            lemma_loopy_fields(coarse_x(v), coarse_y(t), nt_x(v), nt_y(t), fine_y(t));
        }
        self.reg.v = v - 32 * ((v / 32) % 32) - 2048 * ((v / 2048) % 2) - 4096 * (v / 4096) + 32 * ((t
            / 32) % 32) + 2048 * ((t / 2048) % 2) + 4096 * (t / 4096);
    }
}

/// Whether the dot (`sl`, `d`) emits a pixel: visible lines, dots 1 to 256.
pub open spec fn is_pixel_dot(sl: nat, d: nat) -> bool {
    sl < 240 && 1 <= d <= 256
}

/// `n` is `o` after one processor cycle's worth of video: three dots, each
/// with its scroll and vblank effects, memories untouched.
#[verifier::opaque]
pub open spec fn ticked(o: &PPU, n: &PPU) -> bool {
    &&& n.wf()
    &&& n.same_memory(o)
    &&& n.dots() == o.dots() + 3
    &&& n.frame <= o.frame + 1
    &&& ({
            let pos0 = (o.scanline as nat, o.cycle as nat);
            let pos1 = next_pos(pos0.0, pos0.1);
            let pos2 = next_pos(pos1.0, pos1.1);
            let en = o.rendering();
            let t = o.reg.t;
            &&& (n.scanline as nat, n.cycle as nat) == next_pos(pos2.0, pos2.1)
            &&& !is_pixel_dot(pos0.0, pos0.1) && !is_pixel_dot(pos1.0, pos1.1) && !is_pixel_dot(
                pos2.0,
                pos2.1,
            ) ==> n.frame_buf == o.frame_buf
            &&& n.reg.v == v_after_dot(
                v_after_dot(v_after_dot(o.reg.v, t, pos0.0, pos0.1, en), t, pos1.0, pos1.1, en),
                t,
                pos2.0,
                pos2.1,
                en,
            )
            &&& n.reg.status.vblank == vblank_after_dot(
                vblank_after_dot(
                    vblank_after_dot(o.reg.status.vblank, pos0.0, pos0.1),
                    pos1.0,
                    pos1.1,
                ),
                pos2.0,
                pos2.1,
            )
        })
}

/// `n` is `o` after one step of the background fetch pipeline.
pub open spec fn fetch_post(o: &PPU, n: &PPU, mem: &MemMap) -> bool {
    &&& n.wf()
    &&& if !o.rendering() {
        *n == *o
    } else if o.cycle % 8 == 1 {
        *n == (PPU {
            shift_reg_lo: o.shift_reg_lo | o.curr_pattern_lo as u16,
            shift_reg_hi: o.shift_reg_hi | o.curr_pattern_hi as u16,
            prev_attribute_byte: o.curr_attribute_byte,
            curr_attribute_byte: o.temp_attribute_byte,
            curr_tile_idx: o.peek_vram(tile_addr(o.reg.v), mem),
            ..*o
        })
    } else if o.cycle % 8 == 3 {
        *n == (PPU { temp_attribute_byte: o.peek_vram(attr_addr(o.reg.v), mem), ..*o })
    } else if o.cycle % 8 == 5 {
        *n == (PPU {
            curr_pattern_lo: o.peek_vram(
                pattern_addr(o.curr_tile_idx, fine_y(o.reg.v), o.reg.control.bg_pattern_addr),
                mem,
            ),
            ..*o
        })
    } else if o.cycle % 8 == 7 {
        *n == (PPU {
            curr_pattern_hi: o.peek_vram(
                (pattern_addr(o.curr_tile_idx, fine_y(o.reg.v), o.reg.control.bg_pattern_addr)
                    + 8) as u16,
                mem,
            ),
            ..*o
        })
    } else if o.cycle % 8 == 0 {
        *n == (PPU {
            reg: Registers {
                v: if o.cycle == 256 {
                    inc_vert_spec(inc_hori_spec(o.reg.v))
                } else {
                    inc_hori_spec(o.reg.v)
                },
                ..o.reg
            },
            ..*o
        })
    } else {
        *n == *o
    }
}

/// `n` is `o` after the pipeline work of a dot on a rendering line: during
/// dots 1-256 a fetch step, the pixel (visible lines only) and a shift of both
/// pattern registers by one; at dot 257 the horizontal copy; during dots
/// 321-336 a fetch step and, at dots 328 and 336, a shift by eight; nothing
/// on the other dots.
pub open spec fn render_dot_post(o: &PPU, n: &PPU, mem: &MemMap) -> bool {
    let d = o.cycle;
    if 1 <= d <= 256 {
        exists|mid: PPU|
            #![auto]
            fetch_post(o, &mid, mem) && *n == (PPU {
                frame_buf: n.frame_buf,
                shift_reg_lo: mid.shift_reg_lo << 1u16,
                shift_reg_hi: mid.shift_reg_hi << 1u16,
                ..mid
            }) && if o.scanline < 240 {
                n.frame_buf@ == pixel_written(
                    o.frame_buf@,
                    o.scanline * 256 + d - 1,
                    mid.next_pixel_spec(),
                )
            } else {
                n.frame_buf == o.frame_buf
            }
    } else if d == 257 {
        *n == if o.rendering() {
            PPU { reg: Registers { v: copy_hori_spec(o.reg.v, o.reg.t), ..o.reg }, ..*o }
        } else {
            *o
        }
    } else if 321 <= d <= 336 {
        exists|mid: PPU|
            #![auto]
            fetch_post(o, &mid, mem) && *n == if o.rendering() && (d == 328 || d == 336) {
                PPU {
                    shift_reg_lo: mid.shift_reg_lo << 8u16,
                    shift_reg_hi: mid.shift_reg_hi << 8u16,
                    ..mid
                }
            } else {
                mid
            }
    } else {
        *n == *o
    }
}

/// The frame buffer `fb` with pixel `i` set to the RGB value of `color`.
pub open spec fn pixel_written(fb: Seq<u8>, i: int, color: u8) -> Seq<u8> {
    fb.update(3 * i, PALETTE_COLORS@[3 * (color as int % 64)]).update(
        3 * i + 1,
        PALETTE_COLORS@[3 * (color as int % 64) + 1],
    ).update(3 * i + 2, PALETTE_COLORS@[3 * (color as int % 64) + 2])
}

impl PPU {
    pub fn rendering_enabled(&self) -> (r: bool)
        ensures
            r == self.rendering(),
    {
        self.reg.mask.bg_enable || self.reg.mask.sprites_enable
    }

    /// The palette selector of attribute byte `attr` for tile (`tile_x`, `tile_y`).
    pub fn pal_idx_from_attr(&self, attr: u8, tile_x: usize, tile_y: usize) -> (r: u8)
        ensures
            r as nat == attr_quadrant(attr, tile_x as nat, tile_y as nat),
            r < 4,
    {
        let q = ((tile_y / 2) % 2) * 2 + (tile_x / 2) % 2;
        proof {
            lemma2_to64();
        }
        let d: u8 = if q == 0 {
            1
        } else if q == 1 {
            4
        } else if q == 2 {
            16
        } else {
            64
        };
        (attr / d) % 4
    }

    /// The color of pixel value `pix_val` in palette `pal_idx` (of the sprite
    /// palettes if `sprite`), with the grayscale mask applied.
    pub fn pixel_color(&self, pal_idx: u8, pix_val: u8, sprite: bool) -> (r: u8)
        requires
            self.wf(),
            pal_idx < 4,
            pix_val < 4,
        ensures
            r == masked_color(
                self.pal@[palette_index(sprite, pal_idx as nat, pix_val as nat) as int],
                self.reg.mask.grayscale,
            ),
    {
        let base: u8 = if sprite {
            16
        } else {
            0
        };
        let idx: u8 = if pix_val == 0 {
            base
        } else {
            base + pal_idx * 4 + pix_val
        };
        let color = self.pal[idx as usize];
        if self.reg.mask.grayscale {
            color & 0x30
        } else {
            color
        }
    }

    /// The color of the background pixel at the current dot.
    pub fn get_next_pixel(&self) -> (r: u8)
        requires
            self.wf(),
        ensures
            r == self.next_pixel_spec(),
    {
        let scroll = self.reg.scroll_x;
        let mut pix: u8 = 0;
        if self.reg.mask.bg_enable {
            let sh = (15 - scroll) as u16;
            proof {
                lemma_u16_shr_is_div(self.shift_reg_lo, sh);
                lemma_u16_shr_is_div(self.shift_reg_hi, sh);
            }
            let lo = (self.shift_reg_lo >> sh) % 2;
            let hi = (self.shift_reg_hi >> sh) % 2;
            pix = (lo + 2 * hi) as u8;
        }
        let attr = if (scroll as u32 + self.cycle % 9) < 9 {
            self.prev_attribute_byte
        } else {
            self.curr_attribute_byte
        };
        let pal_idx = self.pal_idx_from_attr(attr, (self.cycle / 8) as usize, (self.scanline / 8) as usize);
        self.pixel_color(pal_idx, pix, false)
    }

    /// Stores the RGB value of `color` (taken modulo 64) at pixel (`x`, `y`).
    pub fn put_pixel(&mut self, x: usize, y: usize, color: u8)
        requires
            old(self).wf(),
            x < 256,
            y < 240,
        ensures
            final(self).wf(),
            final(self).frame_buf@ == old(self).frame_buf@.update(
                3 * (y * 256 + x),
                PALETTE_COLORS@[3 * (color as int % 64)],
            ).update(3 * (y * 256 + x) + 1, PALETTE_COLORS@[3 * (color as int % 64) + 1]).update(
                3 * (y * 256 + x) + 2,
                PALETTE_COLORS@[3 * (color as int % 64) + 2],
            ),
            *final(self) == (PPU { frame_buf: final(self).frame_buf, ..*old(self) }),
    {
        let i = 3 * (y * PICTURE_WIDTH + x);
        let c = 3 * ((color % 64) as usize);
        self.frame_buf.set(i, PALETTE_COLORS[c]);
        self.frame_buf.set(i + 1, PALETTE_COLORS[c + 1]);
        self.frame_buf.set(i + 2, PALETTE_COLORS[c + 2]);
    }

    fn shl_shift_registers(&mut self, amount: u16)
        requires
            old(self).wf(),
            amount < 16,
        ensures
            final(self).wf(),
            *final(self) == (PPU {
                shift_reg_lo: old(self).shift_reg_lo << amount,
                shift_reg_hi: old(self).shift_reg_hi << amount,
                ..*old(self)
            }),
    {
        self.shift_reg_lo = self.shift_reg_lo << amount;
        self.shift_reg_hi = self.shift_reg_hi << amount;
    }

    fn fill_shift_registers(&mut self)
        requires
            old(self).wf(),
        ensures
            final(self).wf(),
            *final(self) == (PPU {
                shift_reg_lo: old(self).shift_reg_lo | old(self).curr_pattern_lo as u16,
                shift_reg_hi: old(self).shift_reg_hi | old(self).curr_pattern_hi as u16,
                ..*old(self)
            }),
    {
        self.shift_reg_lo = self.shift_reg_lo | self.curr_pattern_lo as u16;
        self.shift_reg_hi = self.shift_reg_hi | self.curr_pattern_hi as u16;
    }

    /// One step of the background fetch pipeline, chosen by the dot modulo 8:
    /// 1 reloads the shifters and fetches the nametable byte, 3 the attribute
    /// byte, 5 and 7 the pattern bytes, 0 increments `v` horizontally (and
    /// vertically at dot 256). Nothing happens while rendering is disabled.
    pub fn rendering_fetch_data(&mut self, mem: &MemMap)
        requires
            old(self).wf(),
            mem.mem_inv(),
        ensures
            fetch_post(&*old(self), &*final(self), mem),
    {
        if !self.rendering_enabled() {
            return;
        }
        let v = self.reg.v;
        proof {
            lemma_loopy_parts(v);
        }
        let c = self.cycle % 8;
        if c == 1 {
            self.fill_shift_registers();
            self.prev_attribute_byte = self.curr_attribute_byte;
            self.curr_attribute_byte = self.temp_attribute_byte;
            let addr = 0x2000 + v % 0x1000;
            self.curr_tile_idx = self.read_addr(addr, mem);
        } else if c == 3 {
            let addr = 0x23c0 + ((v / 1024) % 4) * 0x400 + (((v / 32) % 32) / 4) * 8 + (v % 32) / 4;
            self.temp_attribute_byte = self.read_addr(addr, mem);
        } else if c == 5 || c == 7 {
            let addr = self.reg.control.bg_pattern_addr + (self.curr_tile_idx as u16) * 16 + v / 4096;
            if c == 5 {
                self.curr_pattern_lo = self.read_addr(addr, mem);
            } else {
                self.curr_pattern_hi = self.read_addr(addr + 8, mem);
            }
        } else if c == 0 {
            self.inc_hori();
            if self.cycle == 256 {
                self.inc_vert();
            }
        }
    }

    /// The work of one dot on a line that runs the pipeline (visible or
    /// pre-render): fetches during dots 1-256 and 321-336, a pixel on visible
    /// lines during dots 1-256, the horizontal copy at dot 257.
    pub fn render_dot(&mut self, mem: &MemMap)
        requires
            old(self).wf(),
            mem.mem_inv(),
            is_render_line(old(self).scanline as nat),
        ensures
            render_dot_post(&*old(self), &*final(self), mem),
            final(self).wf(),
            final(self).same_memory(&*old(self)),
            final(self).cycle == old(self).cycle,
            final(self).scanline == old(self).scanline,
            final(self).frame == old(self).frame,
            final(self).reg.status == old(self).reg.status,
            final(self).reg.v == v_after_fetch(
                old(self).reg.v,
                old(self).reg.t,
                old(self).scanline as nat,
                old(self).cycle as nat,
                old(self).rendering(),
            ),
            if old(self).scanline < 240 && 1 <= old(self).cycle <= 256 {
                exists|mid: PPU|
                    #![auto]
                    fetch_post(&*old(self), &mid, mem) && final(self).frame_buf@ == pixel_written(
                        old(self).frame_buf@,
                        old(self).scanline * 256 + old(self).cycle - 1,
                        mid.next_pixel_spec(),
                    )
            } else {
                final(self).frame_buf == old(self).frame_buf
            },
    {
        let d = self.cycle;
        let sl = self.scanline;
        if 1 <= d && d <= 256 {
            self.rendering_fetch_data(mem);
            let ghost mid = *self;
            if sl < 240 {
                let px = self.get_next_pixel();
                self.put_pixel((d - 1) as usize, sl as usize, px);
                proof {
                    assert(self.frame_buf@ == pixel_written(
                        mid.frame_buf@,
                        sl * 256 + d - 1,
                        mid.next_pixel_spec(),
                    ));
                }
            }
            self.shl_shift_registers(1);
            proof {
                assert(fetch_post(&*old(self), &mid, mem));
            }
        } else if d == 257 {
            if self.rendering_enabled() {
                self.copy_hori();
            }
        } else if 321 <= d && d <= 336 {
            self.rendering_fetch_data(mem);
            let ghost mid = *self;
            if self.rendering_enabled() && (d == 328 || d == 336) {
                self.shl_shift_registers(8);
            }
            proof {
                assert(fetch_post(&*old(self), &mid, mem));
            }
        }
    }

    /// The work of the current dot: the pipeline on rendering lines, the vblank
    /// flag at scanlines 241 and 261, and the vertical copy on the pre-render line.
    pub fn render(&mut self, mem: &MemMap)
        requires
            old(self).wf(),
            mem.mem_inv(),
        ensures
            final(self).wf(),
            final(self).same_memory(&*old(self)),
            final(self).cycle == old(self).cycle,
            final(self).scanline == old(self).scanline,
            final(self).frame == old(self).frame,
            final(self).reg.v == v_after_dot(
                old(self).reg.v,
                old(self).reg.t,
                old(self).scanline as nat,
                old(self).cycle as nat,
                old(self).rendering(),
            ),
            final(self).reg.status.vblank == vblank_after_dot(
                old(self).reg.status.vblank,
                old(self).scanline as nat,
                old(self).cycle as nat,
            ),
            !(old(self).scanline < 240 && 1 <= old(self).cycle <= 256) ==> final(self).frame_buf
                == old(self).frame_buf,
    {
        let sl = self.scanline;
        let d = self.cycle;
        if sl < 240 || sl == 261 {
            self.render_dot(mem);
        }
        if sl == 241 && d == 1 {
            self.reg.status.vblank = true;
        }
        if sl == 261 && d == 1 {
            self.reg.status.vblank = false;
        }
        if sl == 261 && 280 <= d && d <= 304 {
            self.copy_vert();
        }
    }

    /// Moves to the next dot, wrapping the dot at 341 into the next scanline
    /// and the scanline at 262 into the next frame.
    fn advance_dot(&mut self)
        requires
            old(self).wf(),
            old(self).frame < u64::MAX,
        ensures
            final(self).wf(),
            final(self).dots() == old(self).dots() + 1,
            (final(self).scanline as nat, final(self).cycle as nat) == next_pos(
                old(self).scanline as nat,
                old(self).cycle as nat,
            ),
            *final(self) == (PPU {
                cycle: final(self).cycle,
                scanline: final(self).scanline,
                frame: final(self).frame,
                ..*old(self)
            }),
            final(self).frame <= old(self).frame + 1,
    {
        self.cycle = self.cycle + 1;
        if self.cycle >= SCANLINE_DURATION {
            self.cycle = 0;
            self.scanline = self.scanline + 1;
            if self.scanline >= FRAME_SCANLINES {
                self.scanline = 0;
                self.frame = self.frame + 1;
            }
        }
    }

    /// One dot: its work, then the move to the next dot.
    pub fn dot(&mut self, mem: &MemMap)
        requires
            old(self).wf(),
            mem.mem_inv(),
            old(self).frame < u64::MAX,
        ensures
            final(self).wf(),
            final(self).same_memory(&*old(self)),
            final(self).dots() == old(self).dots() + 1,
            final(self).frame <= old(self).frame + 1,
            !is_pixel_dot(old(self).scanline as nat, old(self).cycle as nat) ==> final(self).frame_buf
                == old(self).frame_buf,
            (final(self).scanline as nat, final(self).cycle as nat) == next_pos(
                old(self).scanline as nat,
                old(self).cycle as nat,
            ),
            final(self).reg.v == v_after_dot(
                old(self).reg.v,
                old(self).reg.t,
                old(self).scanline as nat,
                old(self).cycle as nat,
                old(self).rendering(),
            ),
            final(self).reg.status.vblank == vblank_after_dot(
                old(self).reg.status.vblank,
                old(self).scanline as nat,
                old(self).cycle as nat,
            ),
    {
        self.render(mem);
        self.advance_dot();
    }

    /// One processor cycle's worth of video: exactly three dots.
    pub fn cycle(&mut self, mem: &MemMap)
        requires
            old(self).wf(),
            mem.mem_inv(),
            old(self).frame < u64::MAX - 2,
        ensures
            final(self).wf(),
            final(self).same_memory(&*old(self)),
            final(self).dots() == old(self).dots() + 3,
            final(self).frame <= old(self).frame + 1,
            final(self).dot_pos() == (old(self).dot_pos() + 3) % (FRAME_DOTS as int),
            final(self).frame == old(self).frame + (old(self).dot_pos() + 3) / (FRAME_DOTS as int),
            ticked(&*old(self), &*final(self)),
    {
        self.dot(mem);
        self.dot(mem);
        self.dot(mem);
        proof {
            let (f0, d0, f1, d1) = (
                old(self).frame as int,
                old(self).dot_pos(),
                self.frame as int,
                self.dot_pos(),
            );
            reveal(ticked);
            let q = d0 + 3;
            assert(d1 == q % 89342 && f1 == f0 + q / 89342) by {
                vstd::arithmetic::div_mod::lemma_fundamental_div_mod_converse(q, 89342, f1 - f0, d1);
            }
            assert(f1 <= f0 + 1) by (nonlinear_arith)
                requires
                    f1 * 89342 + d1 == f0 * 89342 + d0 + 3,
                    0 <= d0 < 89342,
                    0 <= d1 < 89342,
            ;
        }
    }
}

/// A frame lasts 341 x 262 dots: two states of the unit that lie that many
/// dots apart stand at the same scanline and dot, one frame later.
pub proof fn lemma_frame_period(a: PPU, b: PPU)
    requires
        a.wf(),
        b.wf(),
        b.dots() == a.dots() + FRAME_DOTS,
    ensures
        b.frame == a.frame + 1,
        b.scanline == a.scanline,
        b.cycle == a.cycle,
{
    let pa = a.dot_pos();
    let pb = b.dot_pos();
    assert(0 <= pa < 89342 && 0 <= pb < 89342);
    let fa = a.frame as int;
    let fb = b.frame as int;
    assert(fb == fa + 1 && pb == pa) by (nonlinear_arith)
        requires
            fb * 89342 + pb == fa * 89342 + pa + 89342,
            0 <= pa < 89342,
            0 <= pb < 89342,
    ;
    let (sa, ca, sb, cb) = (a.scanline as int, a.cycle as int, b.scanline as int, b.cycle as int);
    assert(sa == sb && ca == cb) by (nonlinear_arith)
        requires
            sa * 341 + ca == sb * 341 + cb,
            0 <= ca < 341,
            0 <= cb < 341,
    ;
}

} // verus!
