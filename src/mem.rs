//! The processor's bus outside the picture unit's ports: work RAM, the
//! unimplemented audio/IO registers and the cartridge.

use crate::bits::Bitwise;
use crate::cart::{has_identifier, header_of, LoadError, MapperType, NESFile, NESFileHeader, HEADER_SIZE};
use crate::mapper::{Cartridge, FlatMapper, Memory, NROMMapper, MAPPER_SPACE};
use vstd::prelude::*;

verus! {

/// Bytes of work RAM.
pub const RAM_SIZE: usize = 0x800;

/// Whether an image yields a bus: any mapper but NROM does (as flat
/// storage); NROM needs no trainer and the declared PRG and CHR sizes.
pub open spec fn loads(f: &NESFile) -> bool {
    loads_parts(f.header, f.data@)
}

/// Whether a header and the data after it yield a bus.
pub open spec fn loads_parts(h: NESFileHeader, data: Seq<u8>) -> bool {
    h.spec_mapper_number() != 0 || (!h.flags6.bit(2) && h.spec_prg_rom_size() as nat
        + h.spec_chr_rom_size() as nat <= data.len())
}

/// Whether the bytes of an image load: a full header with the identifier,
/// and a board the header and data yield.
pub open spec fn image_loads(b: Seq<u8>) -> bool {
    b.len() >= HEADER_SIZE && has_identifier(b) && loads_parts(
        header_of(b),
        b.subrange(HEADER_SIZE as int, b.len() as int),
    )
}

/// Whether `addr` is one of the picture unit's ports or their mirrors.
pub open spec fn is_ppu_port(addr: u16) -> bool {
    0x2000 <= addr < 0x4000
}

/// Work RAM and the cartridge, as the processor addresses them.
pub struct MemMap {
    pub ram: Vec<u8>,
    pub mapper: Cartridge,
}

impl Memory for MemMap {
    open spec fn mem_inv(&self) -> bool {
        self.ram@.len() == RAM_SIZE && self.mapper.mem_inv()
    }

    open spec fn mapped(addr: u16) -> bool {
        !is_ppu_port(addr)
    }

    /// RAM mirrored every 0x800 bytes below 0x2000; 0x4000 to 0x401F read as all
    /// ones; the cartridge from 0x4020 on.
    open spec fn peek(&self, addr: u16) -> u8 {
        if addr < 0x2000 {
            self.ram@[addr as int % 0x800]
        } else if addr < 0x4020 {
            0xff
        } else {
            self.mapper.peek(addr)
        }
    }

    fn read(&self, addr: u16) -> (r: u8) {
        if addr < 0x2000 {
            self.ram[(addr % 0x800) as usize]
        } else if addr < 0x4020 {
            0xff
        } else {
            self.mapper.read(addr)
        }
    }

    fn write(&mut self, addr: u16, val: u8)
        ensures
            MemMap::written(&*old(self), &*final(self), addr, val),
            final(self).mapper.chr_view() == old(self).mapper.chr_view(),
            addr < 0x2000 ==> final(self).ram@ == old(self).ram@.update(addr as int % 0x800, val)
                && final(self).mapper == old(self).mapper,
            0x2000 <= addr < 0x4020 ==> *final(self) == *old(self),
            addr >= 0x4020 ==> final(self).ram == old(self).ram,
    {
        if addr < 0x2000 {
            self.ram.set((addr % 0x800) as usize, val);
        } else if addr < 0x4020 {
        } else {
            self.mapper.write(addr, val);
        }
    }
}

impl MemMap {
    /// `n` is the bus `o` after a write of `val` at `addr` (outside the ports):
    /// RAM takes it through its mirrors, 0x4000-0x401F ignores it, the
    /// cartridge handles the rest.
    pub open spec fn written(o: &MemMap, n: &MemMap, addr: u16, val: u8) -> bool {
        if addr < 0x2000 {
            n.ram@ == o.ram@.update(addr as int % 0x800, val) && n.mapper == o.mapper
        } else if addr < 0x4020 {
            *n == *o
        } else {
            n.ram == o.ram && Cartridge::written(&o.mapper, &n.mapper, addr, val)
        }
    }

    /// Zeroed RAM and an empty flat cartridge.
    pub fn empty() -> (r: MemMap)
        ensures
            r.mem_inv(),
            r.ram@ == Seq::new(RAM_SIZE as nat, |i: int| 0u8),
            r.mapper matches Cartridge::Flat(m) && m.data@ == Seq::new(MAPPER_SPACE as nat, |i: int| 0u8),
    {
        let ram = vec![0u8; RAM_SIZE];
        let data = vec![0u8; MAPPER_SPACE];
        proof {
            assert(ram@ =~= Seq::new(RAM_SIZE as nat, |i: int| 0u8));
            assert(data@ =~= Seq::new(MAPPER_SPACE as nat, |i: int| 0u8));
        }
        MemMap { ram, mapper: Cartridge::Flat(FlatMapper { data }) }
    }

    /// Builds the bus for an image. An NROM image must hold the sizes its
    /// header declares and no trainer; any other mapper falls back to a flat
    /// cartridge holding the image's data.
    pub fn from_nesfile(nesfile: &NESFile) -> (r: Result<MemMap, LoadError>)
        ensures
            nesfile.spec_mapper_type() == MapperType::NROM && nesfile.header.flags6.bit(2)
                ==> r == Err::<MemMap, LoadError>(LoadError::Trainer),
            nesfile.spec_mapper_type() == MapperType::NROM && !nesfile.header.flags6.bit(2)
                && nesfile.header.spec_prg_rom_size() as nat + nesfile.header.spec_chr_rom_size() as nat
                > nesfile.data@.len() ==> r == Err::<MemMap, LoadError>(LoadError::Truncated),
            nesfile.spec_mapper_type() == MapperType::NROM && !nesfile.header.flags6.bit(2)
                && nesfile.header.spec_prg_rom_size() as nat + nesfile.header.spec_chr_rom_size() as nat
                <= nesfile.data@.len() ==> (r matches Ok(m) && m.mapper is Nrom),
            nesfile.spec_mapper_type() != MapperType::NROM ==> (r matches Ok(m) && m.mapper is Flat),
            r is Ok <==> loads(nesfile),
            r matches Ok(m) ==> m.mem_inv() && m.ram@ == Seq::new(RAM_SIZE as nat, |i: int| 0u8),
            r matches Ok(m) ==> (m.mapper matches Cartridge::Flat(fm) ==> forall|i: int|
                0 <= i < MAPPER_SPACE ==> fm.data@[i] == if i < nesfile.data@.len() {
                    nesfile.data@[i]
                } else {
                    0u8
                }),
            r matches Ok(m) ==> (m.mapper matches Cartridge::Nrom(n) ==> n.prg_rom@
                == nesfile.data@.subrange(0, nesfile.header.spec_prg_rom_size() as int)),
    {
        let ram = vec![0u8; RAM_SIZE];
        proof {
            assert(ram@ =~= Seq::new(RAM_SIZE as nat, |i: int| 0u8));
        }
        match nesfile.mapper_type() {
            MapperType::NROM => {
                if nesfile.header.trainer() {
                    return Err(LoadError::Trainer);
                }
                let prg = nesfile.header.prg_rom_size();
                let chr = nesfile.header.chr_rom_size();
                if prg > nesfile.data.len() || chr > nesfile.data.len() - prg {
                    return Err(LoadError::Truncated);
                }
                let m = NROMMapper::from_nesfile(nesfile);
                Ok(MemMap { ram, mapper: Cartridge::Nrom(m) })
            },
            MapperType::UNKNOWN(_) => {
                let m = FlatMapper::from_data(&nesfile.data);
                Ok(MemMap { ram, mapper: Cartridge::Flat(m) })
            },
        }
    }
}

} // verus!
