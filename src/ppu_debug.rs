//! A debugging view of the picture unit: all four nametables drawn side by
//! side, two across and two down, with their attribute palettes.

use crate::mapper::{Mapper, Memory};
use crate::mem::MemMap;
use crate::ppu::{attr_quadrant, masked_color, palette_index, PALETTE_COLORS, PPU};
use crate::tile::{tile_color, Tile, TILE_SIZE};
use vstd::prelude::*;

verus! {

/// Width of the nametable image in pixels.
pub const NAMETABLE_IMAGE_WIDTH: usize = 512;

/// Height of the nametable image in pixels.
pub const NAMETABLE_IMAGE_HEIGHT: usize = 480;

/// Bytes of the RGB nametable image.
pub const NAMETABLE_IMAGE_SIZE: usize = NAMETABLE_IMAGE_WIDTH * NAMETABLE_IMAGE_HEIGHT * 3;

impl PPU {
    /// Address of the nametable byte for tile (`tx`, `ty`) of nametable `nt`,
    /// counted from the control register's base nametable.
    pub open spec fn nt_tile_addr(&self, nt: nat, tx: nat, ty: nat) -> u16 {
        (self.reg.control.nametable_addr as nat + nt * 0x400 + ty * 32 + tx) as u16
    }

    /// The 16 pattern bytes of tile `tile` in the background pattern table.
    pub open spec fn tile_bytes(&self, mem: &MemMap, tile: u8) -> Seq<u8> {
        Seq::new(
            TILE_SIZE as nat,
            |r: int| mem.mapper.chr_peek((tile as int * 16 + r + self.reg.control.bg_pattern_addr) as u16),
        )
    }

    /// The palette selector of tile (`tx`, `ty`) of nametable `nt`, from its
    /// attribute table.
    pub open spec fn attr_table_palette(&self, mem: &MemMap, nt: nat, tx: nat, ty: nat) -> nat {
        let attr = self.peek_vram((0x23c0 + nt * 0x400 + (ty / 4) * 8 + tx / 4) as u16, mem);
        attr_quadrant(attr, tx, ty)
    }

    /// The color of pixel (`x`, `y`) of the nametable image.
    pub open spec fn nametable_color(&self, mem: &MemMap, x: nat, y: nat) -> u8 {
        let nt = (y / 240) * 2 + x / 256;
        let tx = (x % 256) / 8;
        let ty = (y % 240) / 8;
        let tile = self.peek_vram(self.nt_tile_addr(nt, tx, ty), mem);
        let pix = tile_color(self.tile_bytes(mem, tile), x % 8, y % 8);
        let pal = self.attr_table_palette(mem, nt, tx, ty);
        masked_color(self.pal@[palette_index(false, pal, pix) as int], self.reg.mask.grayscale)
    }

    /// Byte `i` of the nametable image.
    pub open spec fn nametable_image_byte(&self, mem: &MemMap, i: int) -> u8 {
        let q = i / 3;
        PALETTE_COLORS@[3 * (self.nametable_color(mem, (q % 512) as nat, (q / 512) as nat) as int % 64) + i % 3]
    }

    /// The palette selector of tile (`tile_x`, `tile_y`) of nametable
    /// `nametable_num`, read from its attribute table.
    pub fn pal_idx_from_attr_table(&self, nametable_num: usize, tile_x: usize, tile_y: usize, mem: &MemMap) -> (r: u8)
        requires
            self.wf(),
            mem.mem_inv(),
            nametable_num < 4,
            tile_x < 32,
            tile_y < 30,
        ensures
            r as nat == self.attr_table_palette(mem, nametable_num as nat, tile_x as nat, tile_y as nat),
            r < 4,
    {
        let addr = 0x23c0 + nametable_num * 0x400 + (tile_y / 4) * 8 + tile_x / 4;
        let attr = self.read_addr(addr as u16, mem);
        self.pal_idx_from_attr(attr, tile_x, tile_y)
    }

    /// The tile whose pattern is number `tile` of the background table.
    fn fetch_tile(&self, mem: &MemMap, tile: u8) -> (r: Tile)
        requires
            self.wf(),
            mem.mem_inv(),
        ensures
            r.wf(),
            r.bytes@ == self.tile_bytes(mem, tile),
    {
        let mut bytes: Vec<u8> = Vec::new();
        let mut k: u16 = 0;
        while k < 16
            invariant
                k <= 16,
                self.wf(),
                mem.mem_inv(),
                bytes@.len() == k,
                forall|r: int| 0 <= r < k ==> bytes@[r] == self.tile_bytes(mem, tile)[r],
            decreases 16 - k,
        {
            let b = mem.mapper.read_chr(tile as u16 * 16 + k + self.reg.control.bg_pattern_addr);
            bytes.push(b);
            k = k + 1;
        }
        proof {
            assert(bytes@ =~= self.tile_bytes(mem, tile));
        }
        match Tile::from_slice(bytes.as_slice()) {
            Some(t) => t,
            None => Tile { bytes },
        }
    }

    /// The color of pixel (`x`, `y`) of the nametable image.
    pub fn nametable_color_at(&self, mem: &MemMap, x: usize, y: usize) -> (r: u8)
        requires
            self.wf(),
            mem.mem_inv(),
            x < NAMETABLE_IMAGE_WIDTH,
            y < NAMETABLE_IMAGE_HEIGHT,
        ensures
            r == self.nametable_color(mem, x as nat, y as nat),
    {
        let nt = (y / 240) * 2 + x / 256;
        let tx = (x % 256) / 8;
        let ty = (y % 240) / 8;
        let addr = self.reg.control.nametable_addr as usize + nt * 0x400 + ty * 32 + tx;
        let tile_idx = self.read_addr(addr as u16, mem);
        let tile = self.fetch_tile(mem, tile_idx);
        let pix = tile.color_at(x % 8, y % 8);
        let pal = self.pal_idx_from_attr_table(nt, tx, ty, mem);
        self.pixel_color(pal, pix, false)
    }

    /// Draws the four nametables into a 512 x 480 RGB image: nametable n at
    /// column n % 2 and row n / 2, each tile with its attribute palette.
    pub fn generate_nametables_image(&self, mem: &MemMap) -> (r: Vec<u8>)
        requires
            self.wf(),
            mem.mem_inv(),
        ensures
            r@.len() == NAMETABLE_IMAGE_SIZE,
            forall|i: int| 0 <= i < NAMETABLE_IMAGE_SIZE ==> r@[i] == self.nametable_image_byte(mem, i),
    {
        let mut img = vec![0u8; NAMETABLE_IMAGE_SIZE];
        let mut q: usize = 0;
        while q < NAMETABLE_IMAGE_WIDTH * NAMETABLE_IMAGE_HEIGHT
            invariant
                self.wf(),
                mem.mem_inv(),
                q <= NAMETABLE_IMAGE_WIDTH * NAMETABLE_IMAGE_HEIGHT,
                img@.len() == NAMETABLE_IMAGE_SIZE,
                forall|i: int| 0 <= i < 3 * q ==> img@[i] == self.nametable_image_byte(mem, i),
            decreases NAMETABLE_IMAGE_WIDTH * NAMETABLE_IMAGE_HEIGHT - q,
        {
            let color = self.nametable_color_at(mem, q % 512, q / 512);
            let c = 3 * ((color % 64) as usize);
            img.set(3 * q, PALETTE_COLORS[c]);
            img.set(3 * q + 1, PALETTE_COLORS[c + 1]);
            img.set(3 * q + 2, PALETTE_COLORS[c + 2]);
            proof {
                assert forall|i: int| 0 <= i < 3 * (q + 1) implies img@[i] == self.nametable_image_byte(mem, i) by {
                    if i >= 3 * q {
                        assert(i / 3 == q as int);
                        assert(i % 3 == i - 3 * q);
                    }
                }
            }
            q = q + 1;
        }
        img
    }
}

} // verus!
