//! The picture unit's own address space and the eight byte-wide ports that
//! the processor reads and writes.

use crate::mapper::{Mapper, Memory};
use crate::mem::MemMap;
use crate::ppu::{
    pal_written, Registers, ADDRESS_OAMADDR, ADDRESS_OAMDATA, ADDRESS_PPUADDR, ADDRESS_PPUCTRL,
    ADDRESS_PPUDATA, ADDRESS_PPUMASK, ADDRESS_PPUSCROLL, ADDRESS_PPUSTATUS, PPU,
};
use crate::ppu_regs::{PPUControl, PPUMask};
use vstd::prelude::*;

verus! {

/// Loopy registers after a write to the scroll port: the first write (toggle
/// clear) sets the low byte of `t`, the second its high part and fine X; `v`
/// follows `t`.
pub open spec fn scroll_written(r: Registers, val: u8) -> Registers {
    let t = if !r.write_toggle {
        ((r.t as nat / 256) * 256 + val as nat) as u16
    } else {
        ((val as nat % 128) * 256 + r.t as nat % 256) as u16
    };
    Registers {
        t,
        v: t,
        addr_bus: t,
        scroll_x: if r.write_toggle { val % 8 } else { r.scroll_x },
        write_toggle: !r.write_toggle,
        ..r
    }
}

/// Loopy registers after a write to the address port: the first write sets
/// the high six bits, the second the low byte, of a 14-bit `t`; `v` follows `t`.
pub open spec fn address_written(r: Registers, val: u8) -> Registers {
    let t = if !r.write_toggle {
        ((val as nat % 64) * 256 + r.t as nat % 256) as u16
    } else {
        (((r.t as nat / 256) % 64) * 256 + val as nat) as u16
    };
    Registers { t, v: t, addr_bus: t, write_toggle: !r.write_toggle, ..r }
}

/// `v` after a data-port access: advanced by the control register's increment,
/// within 15 bits.
pub open spec fn v_advanced(r: Registers) -> u16 {
    ((r.v as nat + r.control.vram_addr_inc as nat) % 0x8000) as u16
}

/// Palette entry 4k (k from 0 to 3) and entry 4k + 16 are one cell: after a
/// write of `val` to either address, a read of the other through the unit's
/// address space (in the state `n` that the write left) returns `val`.
pub proof fn lemma_palette_mirror(p: PPU, n: PPU, mem: MemMap, k: u16, val: u8, upper: bool)
    requires
        p.wf(),
        k < 4,
        n.pal@ == p.pal_after_write(if upper { (0x3f10 + 4 * k) as u16 } else { (0x3f00 + 4 * k) as u16 }, val),
    ensures
        n.peek_vram(if upper { (0x3f00 + 4 * k) as u16 } else { (0x3f10 + 4 * k) as u16 }, &mem) == val,
        n.peek_vram(if upper { (0x3f10 + 4 * k) as u16 } else { (0x3f00 + 4 * k) as u16 }, &mem) == val,
{
}

impl PPU {
    /// VRAM after writing `val` at `addr` of the unit's space.
    pub open spec fn vram_after_write(&self, addr: u16, val: u8, mem: &MemMap) -> Seq<u8> {
        let a = addr as int % 0x4000;
        if 0x2000 <= a < 0x3f00 {
            mem.mapper.nt_written((0x2000 + (a - 0x2000) % 0x1000) as u16, val, self.vram@)
        } else {
            self.vram@
        }
    }

    /// Palette RAM after writing `val` at `addr` of the unit's space.
    pub open spec fn pal_after_write(&self, addr: u16, val: u8) -> Seq<u8> {
        let a = addr as int % 0x4000;
        if a >= 0x3f00 {
            pal_written(self.pal@, (a - 0x3f00) % 32, val)
        } else {
            self.pal@
        }
    }

    /// Reads the unit's address space (taken modulo 0x4000).
    pub fn read_addr(&self, addr: u16, mem: &MemMap) -> (r: u8)
        requires
            self.wf(),
            mem.mem_inv(),
        ensures
            r == self.peek_vram(addr, mem),
    {
        let a = addr % 0x4000;
        if a < 0x2000 {
            mem.mapper.read_chr(a)
        } else if a < 0x3f00 {
            mem.mapper.nametable_read(0x2000 + (a - 0x2000) % 0x1000, &self.vram)
        } else {
            self.pal[((a - 0x3f00) % 32) as usize]
        }
    }

    /// Writes the unit's address space (taken modulo 0x4000): pattern data goes
    /// to the cartridge, nametables to VRAM through the cartridge's mirroring,
    /// and palette entries to palette RAM.
    pub fn write_addr(&mut self, addr: u16, val: u8, mem: &mut MemMap)
        requires
            old(self).wf(),
            old(mem).mem_inv(),
        ensures
            final(self).wf(),
            *final(mem) == *old(mem),
            final(self).vram@ == old(self).vram_after_write(addr, val, &*old(mem)),
            final(self).pal@ == old(self).pal_after_write(addr, val),
            *final(self) == (PPU { vram: final(self).vram, pal: final(self).pal, ..*old(self) }),
    {
        let a = addr % 0x4000;
        if a < 0x2000 {
            mem.mapper.write_chr(a, val);
        } else if a < 0x3f00 {
            mem.mapper.nametable_write(0x2000 + (a - 0x2000) % 0x1000, val, &mut self.vram);
        } else {
            self.write_pal(a, val);
        }
    }

    /// Writes palette RAM; entries 0, 4, 8 and 12 are shared with 16, 20, 24, 28.
    pub fn write_pal(&mut self, addr: u16, val: u8)
        requires
            old(self).wf(),
            0x3f00 <= addr < 0x4000,
        ensures
            final(self).wf(),
            final(self).pal@ == pal_written(old(self).pal@, (addr - 0x3f00) % 32, val),
            *final(self) == (PPU { pal: final(self).pal, ..*old(self) }),
    {
        let i = ((addr - 0x3f00) % 32) as usize;
        self.pal.set(i, val);
        if i % 4 == 0 {
            self.pal.set((i + 16) % 32, val);
        }
    }

    /// Reads a port without side effects: control, mask and status read as
    /// their packed values, the other ports as 0.
    pub fn read_mmio_no_sideeffect(&self, addr: u16) -> (r: u8)
        requires
            self.wf(),
        ensures
            r as nat == if addr == ADDRESS_PPUCTRL {
                self.reg.control.spec_byte()
            } else if addr == ADDRESS_PPUMASK {
                self.reg.mask.spec_byte()
            } else if addr == ADDRESS_PPUSTATUS {
                self.reg.status.spec_byte()
            } else {
                0
            },
    {
        if addr == ADDRESS_PPUCTRL {
            self.reg.control.to_byte()
        } else if addr == ADDRESS_PPUMASK {
            self.reg.mask.to_byte()
        } else if addr == ADDRESS_PPUSTATUS {
            self.reg.status.to_byte()
        } else {
            0
        }
    }

    /// Reads the status port: vblank, sprite-0 hit and overflow in bits 7 to 5
    /// over the low five bits of the I/O latch; clears vblank and the write toggle.
    pub fn read_ppustatus(&mut self) -> (r: u8)
        requires
            old(self).wf(),
        ensures
            final(self).wf(),
            r as nat == old(self).reg.status.spec_byte() + old(self).reg.io_bus as nat % 32,
            *final(self) == (PPU {
                reg: Registers {
                    status: crate::ppu_regs::PPUStatus { vblank: false, ..old(self).reg.status },
                    write_toggle: false,
                    ..old(self).reg
                },
                ..*old(self)
            }),
    {
        let val = self.reg.status.to_byte() + self.reg.io_bus % 32;
        self.reg.status.vblank = false;
        self.reg.write_toggle = false;
        val
    }

    /// Reads the OAM byte at the OAM address.
    pub fn read_oamdata(&self) -> (r: u8)
        requires
            self.wf(),
        ensures
            r == self.oam@[self.reg.oam_addr as int],
    {
        self.oam[self.reg.oam_addr as usize]
    }

    /// Reads the data port: the buffered byte, or the palette entry itself in
    /// the palette region; the buffer takes the byte at `v` and `v` advances.
    pub fn read_ppudata(&mut self, mem: &MemMap) -> (r: u8)
        requires
            old(self).wf(),
            mem.mem_inv(),
        ensures
            final(self).wf(),
            r == if PPU::is_palette_addr(old(self).reg.v) {
                old(self).peek_vram(old(self).reg.v, mem)
            } else {
                old(self).reg.read_buf
            },
            *final(self) == (PPU {
                reg: Registers {
                    read_buf: old(self).peek_vram(old(self).reg.v, mem),
                    v: v_advanced(old(self).reg),
                    addr_bus: v_advanced(old(self).reg),
                    ..old(self).reg
                },
                ..*old(self)
            }),
    {
        let old_val = self.reg.read_buf;
        let addr = self.reg.v;
        let fresh = self.read_addr(addr, mem);
        self.reg.read_buf = fresh;
        self.reg.v = (self.reg.v + self.reg.control.vram_addr_inc as u16) % 0x8000;
        self.reg.addr_bus = self.reg.v;
        if addr % 0x4000 >= 0x3f00 {
            fresh
        } else {
            old_val
        }
    }

    /// Reads one of the eight ports (0x2000 to 0x2007) with its side effects;
    /// write-only ports return the I/O latch.
    pub fn read_mmio(&mut self, addr: u16, mem: &MemMap) -> (r: u8)
        requires
            old(self).wf(),
            mem.mem_inv(),
            0x2000 <= addr < 0x2008,
        ensures
            final(self).wf(),
            addr == ADDRESS_PPUSTATUS ==> r as nat == old(self).reg.status.spec_byte()
                + old(self).reg.io_bus as nat % 32 && *final(self) == (PPU {
                reg: Registers {
                    status: crate::ppu_regs::PPUStatus { vblank: false, ..old(self).reg.status },
                    write_toggle: false,
                    ..old(self).reg
                },
                ..*old(self)
            }),
            addr == ADDRESS_OAMDATA ==> r == old(self).oam@[old(self).reg.oam_addr as int]
                && *final(self) == *old(self),
            addr == ADDRESS_PPUDATA ==> (r == if PPU::is_palette_addr(old(self).reg.v) {
                old(self).peek_vram(old(self).reg.v, mem)
            } else {
                old(self).reg.read_buf
            }) && *final(self) == (PPU {
                reg: Registers {
                    read_buf: old(self).peek_vram(old(self).reg.v, mem),
                    v: v_advanced(old(self).reg),
                    addr_bus: v_advanced(old(self).reg),
                    ..old(self).reg
                },
                ..*old(self)
            }),
            addr != ADDRESS_PPUSTATUS && addr != ADDRESS_OAMDATA && addr != ADDRESS_PPUDATA ==> r
                == old(self).reg.io_bus && *final(self) == *old(self),
    {
        if addr == ADDRESS_PPUSTATUS {
            self.read_ppustatus()
        } else if addr == ADDRESS_OAMDATA {
            self.read_oamdata()
        } else if addr == ADDRESS_PPUDATA {
            self.read_ppudata(mem)
        } else {
            self.reg.io_bus
        }
    }

    /// Writes one byte of object attribute memory.
    pub fn write_oam(&mut self, dst: u8, val: u8)
        requires
            old(self).wf(),
        ensures
            final(self).wf(),
            final(self).oam@ == old(self).oam@.update(dst as int, val),
            *final(self) == (PPU { oam: final(self).oam, ..*old(self) }),
    {
        self.oam.set(dst as usize, val);
    }

    /// Latches the page for an OAM DMA.
    pub fn write_oamdma(&mut self, val: u8)
        requires
            old(self).wf(),
        ensures
            final(self).wf(),
            *final(self) == (PPU { reg: Registers { oam_dma: val, ..old(self).reg }, ..*old(self) }),
    {
        self.reg.oam_dma = val;
    }

    fn write_ppuscroll(&mut self, val: u8)
        requires
            old(self).wf(),
        ensures
            final(self).wf(),
            *final(self) == (PPU { reg: scroll_written(old(self).reg, val), ..*old(self) }),
    {
        if !self.reg.write_toggle {
            self.reg.t = (self.reg.t / 256) * 256 + val as u16;
        } else {
            self.reg.t = (val % 128) as u16 * 256 + self.reg.t % 256;
            self.reg.scroll_x = val % 8;
        }
        self.reg.write_toggle = !self.reg.write_toggle;
        self.reg.addr_bus = self.reg.t;
        self.reg.v = self.reg.addr_bus;
    }

    fn write_ppuaddr(&mut self, val: u8)
        requires
            old(self).wf(),
        ensures
            final(self).wf(),
            *final(self) == (PPU { reg: address_written(old(self).reg, val), ..*old(self) }),
    {
        if !self.reg.write_toggle {
            self.reg.t = (val % 64) as u16 * 256 + self.reg.t % 256;
        } else {
            self.reg.t = ((self.reg.t / 256) % 64) * 256 + val as u16;
        }
        self.reg.write_toggle = !self.reg.write_toggle;
        self.reg.addr_bus = self.reg.t;
        self.reg.v = self.reg.addr_bus;
    }

    fn write_ppudata(&mut self, val: u8, mem: &mut MemMap)
        requires
            old(self).wf(),
            old(mem).mem_inv(),
        ensures
            final(self).wf(),
            *final(mem) == *old(mem),
            final(self).vram@ == old(self).vram_after_write(old(self).reg.v, val, &*old(mem)),
            final(self).pal@ == old(self).pal_after_write(old(self).reg.v, val),
            *final(self) == (PPU {
                vram: final(self).vram,
                pal: final(self).pal,
                reg: Registers {
                    v: v_advanced(old(self).reg),
                    addr_bus: v_advanced(old(self).reg),
                    ..old(self).reg
                },
                ..*old(self)
            }),
    {
        let addr = self.reg.v;
        self.write_addr(addr, val, mem);
        self.reg.v = (self.reg.v + self.reg.control.vram_addr_inc as u16) % 0x8000;
        self.reg.addr_bus = self.reg.v;
    }

    /// Writes one of the eight ports (0x2000 to 0x2007); every write also sets
    /// the I/O latch.
    pub fn write_mmio(&mut self, addr: u16, val: u8, mem: &mut MemMap)
        requires
            old(self).wf(),
            old(mem).mem_inv(),
            0x2000 <= addr < 0x2008,
        ensures
            final(self).wf(),
            *final(mem) == *old(mem),
            PPU::port_written(&*old(self), &*final(self), addr, val, &*old(mem)),
    {
        self.reg.io_bus = val;
        if addr == ADDRESS_PPUCTRL {
            self.reg.control = PPUControl::from_byte(val);
        } else if addr == ADDRESS_PPUMASK {
            self.reg.mask = PPUMask::from_byte(val);
        } else if addr == ADDRESS_PPUSTATUS {
        } else if addr == ADDRESS_OAMADDR {
            self.reg.oam_addr = val;
        } else if addr == ADDRESS_OAMDATA {
            let a = self.reg.oam_addr;
            self.write_oam(a, val);
            self.reg.oam_addr = a.wrapping_add(1);
        } else if addr == ADDRESS_PPUSCROLL {
            self.write_ppuscroll(val);
        } else if addr == ADDRESS_PPUADDR {
            self.write_ppuaddr(val);
        } else {
            self.write_ppudata(val, mem);
        }
    }

    /// The unit after writing `val` to port `addr`, `o` before and `n` after.
    pub open spec fn port_written(o: &PPU, n: &PPU, addr: u16, val: u8, mem: &MemMap) -> bool {
        let r = Registers { io_bus: val, ..o.reg };
        if addr == ADDRESS_PPUCTRL {
            *n == (PPU { reg: Registers { control: PPUControl::spec_from_byte(val), ..r }, ..*o })
        } else if addr == ADDRESS_PPUMASK {
            *n == (PPU { reg: Registers { mask: PPUMask::spec_from_byte(val), ..r }, ..*o })
        } else if addr == ADDRESS_PPUSTATUS {
            *n == (PPU { reg: r, ..*o })
        } else if addr == ADDRESS_OAMADDR {
            *n == (PPU { reg: Registers { oam_addr: val, ..r }, ..*o })
        } else if addr == ADDRESS_OAMDATA {
            &&& n.oam@ == o.oam@.update(o.reg.oam_addr as int, val)
            &&& *n == (PPU {
                oam: n.oam,
                reg: Registers { oam_addr: ((o.reg.oam_addr as nat + 1) % 256) as u8, ..r },
                ..*o
            })
        } else if addr == ADDRESS_PPUSCROLL {
            *n == (PPU { reg: scroll_written(r, val), ..*o })
        } else if addr == ADDRESS_PPUADDR {
            *n == (PPU { reg: address_written(r, val), ..*o })
        } else {
            &&& n.vram@ == o.vram_after_write(o.reg.v, val, mem)
            &&& n.pal@ == o.pal_after_write(o.reg.v, val)
            &&& *n == (PPU {
                vram: n.vram,
                pal: n.pal,
                reg: Registers { v: v_advanced(r), addr_bus: v_advanced(r), ..r },
                ..*o
            })
        }
    }
}

} // verus!
