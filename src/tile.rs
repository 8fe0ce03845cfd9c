//! 8x8 pattern tiles as the picture unit reads them: 16 bytes, the low bit
//! plane in bytes 0-7 and the high bit plane in bytes 8-15.

use crate::bits::Bitwise;
use crate::ppu_regs::b2n;
use vstd::prelude::*;

verus! {

/// Bytes in one tile.
pub const TILE_SIZE: usize = 16;

pub struct Tile {
    pub bytes: Vec<u8>,
}

/// The 2-bit color of pixel (x, y) of the tile whose bytes are `b`: bit 7 - x
/// of row y in the low plane and, above it, in the high plane.
pub open spec fn tile_color(b: Seq<u8>, x: nat, y: nat) -> nat {
    b2n(b[y as int].bit((7 - x) as nat)) + 2 * b2n(b[y + 8int].bit((7 - x) as nat))
}

impl Tile {
    pub open spec fn wf(&self) -> bool {
        self.bytes@.len() == TILE_SIZE
    }

    /// A tile holding `buf`, or `None` unless `buf` has exactly 16 bytes.
    pub fn from_slice(buf: &[u8]) -> (r: Option<Tile>)
        ensures
            buf@.len() == TILE_SIZE ==> (r matches Some(t) && t.bytes@ == buf@),
            buf@.len() != TILE_SIZE ==> r is None,
            r matches Some(t) ==> t.wf(),
    {
        if buf.len() == TILE_SIZE {
            let mut bytes: Vec<u8> = Vec::new();
            let mut i: usize = 0;
            while i < buf.len()
                invariant
                    i <= buf@.len(),
                    bytes@ == buf@.subrange(0, i as int),
                decreases buf@.len() - i,
            {
                bytes.push(buf[i]);
                i += 1;
            }
            proof {
                assert(bytes@ =~= buf@);
            }
            Some(Tile { bytes })
        } else {
            None
        }
    }

    /// The 2-bit color at column `x` and row `y`.
    pub fn color_at(&self, x: usize, y: usize) -> (r: u8)
        requires
            self.wf(),
            x < 8,
            y < 8,
        ensures
            r as nat == tile_color(self.bytes@, x as nat, y as nat),
            r < 4,
    {
        let b0 = self.bytes[y].test_bit(7 - x) as u8;
        let b1 = self.bytes[y + 8].test_bit(7 - x) as u8;
        b1 * 2 + b0
    }
}

} // verus!
