//! Cartridge hardware behind the bus: program space, pattern data and the
//! nametable mirroring that the picture unit sees.

use crate::bits::Bitwise;
use crate::cart::{MapperType, NESFile};
use vstd::prelude::*;

verus! {

/// Bytes of nametable memory inside the console.
pub const VRAM_SIZE: usize = 0x800;

/// First address of the cartridge's part of the processor's space.
pub const MAPPER_START_ADDRESS: u16 = 0x4020;

/// Number of addresses from `MAPPER_START_ADDRESS` to the end of the space.
pub const MAPPER_SPACE: usize = 0xbfe0;

/// Size of a 32 KiB NROM program.
pub const NROM256_PRG_ROM_SIZE: usize = 32_768;

/// Byte-wide storage addressed by 16-bit addresses.
pub trait Memory: Sized {
    /// Internal consistency of the storage.
    spec fn mem_inv(&self) -> bool;

    /// Addresses that this storage answers.
    spec fn mapped(addr: u16) -> bool;

    /// The byte a read of `addr` returns.
    spec fn peek(&self, addr: u16) -> u8;

    fn read(&self, addr: u16) -> (r: u8)
        requires
            self.mem_inv(),
            Self::mapped(addr),
        ensures
            r == self.peek(addr),
    ;

    fn write(&mut self, addr: u16, val: u8)
        requires
            old(self).mem_inv(),
            Self::mapped(addr),
        ensures
            final(self).mem_inv(),
    ;
}

/// What a cartridge offers besides program space: pattern data and the
/// nametable layout.
pub trait Mapper: Memory {
    /// The pattern byte at `addr`.
    spec fn chr_peek(&self, addr: u16) -> u8;

    /// The nametable byte at `addr` (0x2000 to 0x2FFF) given the console's VRAM.
    spec fn nt_peek(&self, addr: u16, vram: Seq<u8>) -> u8;

    /// The console's VRAM after writing `val` to nametable address `addr`.
    spec fn nt_written(&self, addr: u16, val: u8, vram: Seq<u8>) -> Seq<u8>;

    fn read_chr(&self, addr: u16) -> (r: u8)
        requires
            self.mem_inv(),
        ensures
            r == self.chr_peek(addr),
    ;

    fn write_chr(&mut self, addr: u16, val: u8)
        requires
            old(self).mem_inv(),
        ensures
            final(self).mem_inv(),
    ;

    fn nametable_read(&self, addr: u16, vram: &Vec<u8>) -> (r: u8)
        requires
            self.mem_inv(),
            0x2000 <= addr < 0x3000,
            vram@.len() == VRAM_SIZE,
        ensures
            r == self.nt_peek(addr, vram@),
    ;

    fn nametable_write(&mut self, addr: u16, val: u8, vram: &mut Vec<u8>)
        requires
            old(self).mem_inv(),
            0x2000 <= addr < 0x3000,
            old(vram)@.len() == VRAM_SIZE,
        ensures
            *final(self) == *old(self),
            final(vram)@ == old(self).nt_written(addr, val, old(vram)@),
            final(vram)@.len() == VRAM_SIZE,
    ;
}

/// Index into the console's VRAM of a nametable address, for vertical
/// mirroring (`v_mirror`) or horizontal mirroring.
pub open spec fn nametable_index(addr: u16, v_mirror: bool) -> int {
    let a = addr as int - 0x2000;
    if v_mirror {
        a % 0x800
    } else {
        (a / 0x800) * 0x400 + a % 0x400
    }
}

/// Copies `src[start..end]` into a new vector.
fn copy_range(src: &Vec<u8>, start: usize, end: usize) -> (r: Vec<u8>)
    requires
        start <= end <= src@.len(),
    ensures
        r@ == src@.subrange(start as int, end as int),
{
    let mut r: Vec<u8> = Vec::new();
    let mut i: usize = start;
    while i < end
        invariant
            start <= i <= end <= src@.len(),
            r@ == src@.subrange(start as int, i as int),
        decreases end - i,
    {
        r.push(src[i]);
        i += 1;
    }
    r
}

/// The NROM board: up to 32 KiB of program ROM, optional program RAM, 8 KiB of
/// pattern ROM and a fixed nametable mirroring.
pub struct NROMMapper {
    pub prg_rom: Vec<u8>,
    pub prg_ram: Vec<u8>,
    pub chr_rom: Vec<u8>,
    pub nametable_v_mirror: bool,
}

impl NROMMapper {
    /// Builds the board from an image whose header declares NROM and no trainer
    /// and whose data holds the declared PRG-ROM and CHR-ROM.
    pub fn from_nesfile(nesfile: &NESFile) -> (r: NROMMapper)
        requires
            nesfile.spec_mapper_type() == MapperType::NROM,
            !nesfile.header.flags6.bit(2),
            nesfile.header.spec_prg_rom_size() as nat + nesfile.header.spec_chr_rom_size() as nat
                <= nesfile.data@.len(),
        ensures
            r.prg_rom@ == nesfile.data@.subrange(0, nesfile.header.spec_prg_rom_size() as int),
            r.chr_rom@ == nesfile.data@.subrange(
                nesfile.header.spec_prg_rom_size() as int,
                nesfile.header.spec_prg_rom_size() + nesfile.header.spec_chr_rom_size(),
            ),
            r.prg_ram@ == Seq::new(nesfile.header.spec_prg_ram_size(), |i: int| 0u8),
            r.nametable_v_mirror == nesfile.header.flags6.bit(0),
    {
        let _data_len = nesfile.data.len();
        let prg_rom_size = nesfile.header.prg_rom_size();
        let chr_rom_size = nesfile.header.chr_rom_size();
        let prg_ram_size = nesfile.header.prg_ram_size();
        let nametable_v_mirror = nesfile.header.nametable_layout();
        let prg_rom = copy_range(&nesfile.data, 0, prg_rom_size);
        let prg_ram = vec![0u8; prg_ram_size];
        let chr_rom = copy_range(&nesfile.data, prg_rom_size, prg_rom_size + chr_rom_size);
        proof {
            assert(prg_ram@ =~= Seq::new(nesfile.header.spec_prg_ram_size(), |i: int| 0u8));
        }
        NROMMapper { prg_rom, prg_ram, chr_rom, nametable_v_mirror }
    }

    /// Index into the console's VRAM of a nametable address.
    pub fn nametable_addr_fix(&self, addr: u16) -> (r: u16)
        requires
            0x2000 <= addr < 0x3000,
        ensures
            r as int == nametable_index(addr, self.nametable_v_mirror),
            r < VRAM_SIZE,
    {
        let a = addr - 0x2000;
        if self.nametable_v_mirror {
            a % 0x800
        } else {
            (a / 0x800) * 0x400 + a % 0x400
        }
    }
}

impl Memory for NROMMapper {
    open spec fn mem_inv(&self) -> bool {
        true
    }

    open spec fn mapped(addr: u16) -> bool {
        true
    }

    /// PRG-RAM at 0x6000 and PRG-ROM at 0x8000, each mirrored through its
    /// window; other addresses and absent memory read as 0xFF.
    open spec fn peek(&self, addr: u16) -> u8 {
        if 0x6000 <= addr < 0x8000 && self.prg_ram@.len() > 0 {
            self.prg_ram@[(addr - 0x6000) % self.prg_ram@.len() as int]
        } else if 0x8000 <= addr && self.prg_rom@.len() > 0 {
            self.prg_rom@[(addr - 0x8000) % self.prg_rom@.len() as int]
        } else {
            0xff
        }
    }

    fn read(&self, addr: u16) -> (r: u8) {
        if 0x6000 <= addr && addr < 0x8000 && self.prg_ram.len() > 0 {
            self.prg_ram[((addr - 0x6000) as usize) % self.prg_ram.len()]
        } else if 0x8000 <= addr && self.prg_rom.len() > 0 {
            self.prg_rom[((addr - 0x8000) as usize) % self.prg_rom.len()]
        } else {
            0xff
        }
    }

    /// Only PRG-RAM takes writes.
    fn write(&mut self, addr: u16, val: u8)
        ensures
            final(self).prg_rom == old(self).prg_rom,
            final(self).chr_rom == old(self).chr_rom,
            final(self).nametable_v_mirror == old(self).nametable_v_mirror,
            final(self).prg_ram@ == if 0x6000 <= addr < 0x8000 && old(self).prg_ram@.len() > 0 {
                old(self).prg_ram@.update(
                    (addr - 0x6000) % old(self).prg_ram@.len() as int,
                    val,
                )
            } else {
                old(self).prg_ram@
            },
    {
        if 0x6000 <= addr && addr < 0x8000 && self.prg_ram.len() > 0 {
            let i = ((addr - 0x6000) as usize) % self.prg_ram.len();
            self.prg_ram.set(i, val);
        }
    }
}

impl Mapper for NROMMapper {
    /// Pattern ROM, mirrored through its size; 0xFF when there is none.
    open spec fn chr_peek(&self, addr: u16) -> u8 {
        if self.chr_rom@.len() > 0 {
            self.chr_rom@[addr as int % self.chr_rom@.len() as int]
        } else {
            0xff
        }
    }

    open spec fn nt_peek(&self, addr: u16, vram: Seq<u8>) -> u8 {
        vram[nametable_index(addr, self.nametable_v_mirror)]
    }

    open spec fn nt_written(&self, addr: u16, val: u8, vram: Seq<u8>) -> Seq<u8> {
        vram.update(nametable_index(addr, self.nametable_v_mirror), val)
    }

    fn read_chr(&self, addr: u16) -> (r: u8) {
        if self.chr_rom.len() > 0 {
            self.chr_rom[(addr as usize) % self.chr_rom.len()]
        } else {
            0xff
        }
    }

    /// Pattern ROM ignores writes.
    fn write_chr(&mut self, addr: u16, val: u8)
        ensures
            *final(self) == *old(self),
    {
    }

    fn nametable_read(&self, addr: u16, vram: &Vec<u8>) -> (r: u8) {
        let i = self.nametable_addr_fix(addr);
        vram[i as usize]
    }

    fn nametable_write(&mut self, addr: u16, val: u8, vram: &mut Vec<u8>) {
        let i = self.nametable_addr_fix(addr);
        vram.set(i as usize, val);
    }
}

/// Fallback for boards that are not supported: the image's data laid out flat
/// from 0x4020 on, readable and writable, with no pattern data or nametables.
pub struct FlatMapper {
    pub data: Vec<u8>,
}

impl FlatMapper {
    /// The image's data copied to the start of the space, zero after it.
    pub fn from_data(src: &Vec<u8>) -> (r: FlatMapper)
        ensures
            r.data@.len() == MAPPER_SPACE,
            forall|i: int|
                0 <= i < MAPPER_SPACE ==> r.data@[i] == if i < src@.len() {
                    src@[i]
                } else {
                    0u8
                },
    {
        let mut data = vec![0u8; MAPPER_SPACE];
        let n = if src.len() < MAPPER_SPACE {
            src.len()
        } else {
            MAPPER_SPACE
        };
        let mut i: usize = 0;
        while i < n
            invariant
                n <= src@.len(),
                n <= MAPPER_SPACE,
                i <= n,
                data@.len() == MAPPER_SPACE,
                forall|j: int| 0 <= j < i ==> data@[j] == src@[j],
                forall|j: int| i <= j < MAPPER_SPACE ==> data@[j] == 0u8,
            decreases n - i,
        {
            data.set(i, src[i]);
            i += 1;
        }
        FlatMapper { data }
    }
}

impl Memory for FlatMapper {
    open spec fn mem_inv(&self) -> bool {
        self.data@.len() == MAPPER_SPACE
    }

    open spec fn mapped(addr: u16) -> bool {
        true
    }

    open spec fn peek(&self, addr: u16) -> u8 {
        if addr >= MAPPER_START_ADDRESS {
            self.data@[addr - MAPPER_START_ADDRESS]
        } else {
            0xff
        }
    }

    fn read(&self, addr: u16) -> (r: u8) {
        if addr >= MAPPER_START_ADDRESS {
            self.data[(addr - MAPPER_START_ADDRESS) as usize]
        } else {
            0xff
        }
    }

    fn write(&mut self, addr: u16, val: u8)
        ensures
            final(self).data@ == if addr >= MAPPER_START_ADDRESS {
                old(self).data@.update(addr - MAPPER_START_ADDRESS, val)
            } else {
                old(self).data@
            },
    {
        if addr >= MAPPER_START_ADDRESS {
            self.data.set((addr - MAPPER_START_ADDRESS) as usize, val);
        }
    }
}

impl Mapper for FlatMapper {
    open spec fn chr_peek(&self, addr: u16) -> u8 {
        0xff
    }

    open spec fn nt_peek(&self, addr: u16, vram: Seq<u8>) -> u8 {
        0xff
    }

    open spec fn nt_written(&self, addr: u16, val: u8, vram: Seq<u8>) -> Seq<u8> {
        vram
    }

    fn read_chr(&self, addr: u16) -> (r: u8) {
        0xff
    }

    fn write_chr(&mut self, addr: u16, val: u8)
        ensures
            *final(self) == *old(self),
    {
    }

    fn nametable_read(&self, addr: u16, vram: &Vec<u8>) -> (r: u8) {
        0xff
    }

    fn nametable_write(&mut self, addr: u16, val: u8, vram: &mut Vec<u8>) {
    }
}

/// The supported boards, one variant each, and the fallback.
pub enum Cartridge {
    Nrom(NROMMapper),
    Flat(FlatMapper),
}

impl Memory for Cartridge {
    open spec fn mem_inv(&self) -> bool {
        match self {
            Cartridge::Nrom(m) => m.mem_inv(),
            Cartridge::Flat(m) => m.mem_inv(),
        }
    }

    open spec fn mapped(addr: u16) -> bool {
        true
    }

    open spec fn peek(&self, addr: u16) -> u8 {
        match self {
            Cartridge::Nrom(m) => m.peek(addr),
            Cartridge::Flat(m) => m.peek(addr),
        }
    }

    fn read(&self, addr: u16) -> (r: u8) {
        match self {
            Cartridge::Nrom(m) => m.read(addr),
            Cartridge::Flat(m) => m.read(addr),
        }
    }

    fn write(&mut self, addr: u16, val: u8)
        ensures
            final(self).chr_view() == old(self).chr_view(),
            Cartridge::written(&*old(self), &*final(self), addr, val),
    {
        match self {
            Cartridge::Nrom(m) => m.write(addr, val),
            Cartridge::Flat(m) => m.write(addr, val),
        }
    }
}

impl Cartridge {
    /// `n` is the board `o` after a program-space write of `val` at `addr`.
    pub open spec fn written(o: &Cartridge, n: &Cartridge, addr: u16, val: u8) -> bool {
        match (o, n) {
            (Cartridge::Nrom(a), Cartridge::Nrom(b)) => {
                &&& b.prg_rom == a.prg_rom
                &&& b.chr_rom == a.chr_rom
                &&& b.nametable_v_mirror == a.nametable_v_mirror
                &&& b.prg_ram@ == if 0x6000 <= addr < 0x8000 && a.prg_ram@.len() > 0 {
                    a.prg_ram@.update((addr - 0x6000) % a.prg_ram@.len() as int, val)
                } else {
                    a.prg_ram@
                }
            },
            (Cartridge::Flat(a), Cartridge::Flat(b)) => b.data@ == if addr >= MAPPER_START_ADDRESS {
                a.data@.update(addr - MAPPER_START_ADDRESS, val)
            } else {
                a.data@
            },
            _ => false,
        }
    }

    /// What the picture unit sees of the board: pattern data and nametable
    /// layout; program-space writes leave it alone.
    pub open spec fn chr_view(&self) -> (Seq<u8>, bool, bool) {
        match self {
            Cartridge::Nrom(m) => (m.chr_rom@, m.nametable_v_mirror, true),
            Cartridge::Flat(m) => (Seq::empty(), false, false),
        }
    }
}

impl Mapper for Cartridge {
    open spec fn chr_peek(&self, addr: u16) -> u8 {
        match self {
            Cartridge::Nrom(m) => m.chr_peek(addr),
            Cartridge::Flat(m) => m.chr_peek(addr),
        }
    }

    open spec fn nt_peek(&self, addr: u16, vram: Seq<u8>) -> u8 {
        match self {
            Cartridge::Nrom(m) => m.nt_peek(addr, vram),
            Cartridge::Flat(m) => m.nt_peek(addr, vram),
        }
    }

    open spec fn nt_written(&self, addr: u16, val: u8, vram: Seq<u8>) -> Seq<u8> {
        match self {
            Cartridge::Nrom(m) => m.nt_written(addr, val, vram),
            Cartridge::Flat(m) => m.nt_written(addr, val, vram),
        }
    }

    fn read_chr(&self, addr: u16) -> (r: u8) {
        match self {
            Cartridge::Nrom(m) => m.read_chr(addr),
            Cartridge::Flat(m) => m.read_chr(addr),
        }
    }

    fn write_chr(&mut self, addr: u16, val: u8)
        ensures
            *final(self) == *old(self),
    {
        match self {
            Cartridge::Nrom(m) => m.write_chr(addr, val),
            Cartridge::Flat(m) => m.write_chr(addr, val),
        }
    }

    fn nametable_read(&self, addr: u16, vram: &Vec<u8>) -> (r: u8) {
        match self {
            Cartridge::Nrom(m) => m.nametable_read(addr, vram),
            Cartridge::Flat(m) => m.nametable_read(addr, vram),
        }
    }

    fn nametable_write(&mut self, addr: u16, val: u8, vram: &mut Vec<u8>) {
        match self {
            Cartridge::Nrom(m) => m.nametable_write(addr, val, vram),
            Cartridge::Flat(m) => m.nametable_write(addr, val, vram),
        }
    }
}

} // verus!
