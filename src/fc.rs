//! The console: processor, picture unit and cartridge, with the operations
//! a front end drives (load, reset, step, run to the end of a picture, peek).

use crate::bits::address_of;
use crate::cart::{header_of, LoadError, MapperType, NESFile, HEADER_SIZE};
use crate::cpu::{StepError, CPU, CYCLE_LIMIT, MAX_STEP_CYCLES, RESET_VECTOR};
use crate::mem::{image_loads, is_ppu_port, MemMap};
use crate::ppu::PPU;
use vstd::prelude::*;

verus! {

/// The byte the processor reads at `addr` (0x8000 or above) from an NROM
/// image's program ROM, mirrored through its size.
pub open spec fn prg_byte(f: &NESFile, addr: u16) -> u8 {
    let n = f.header.spec_prg_rom_size() as int;
    if n > 0 {
        f.data@[(addr - 0x8000) % n]
    } else {
        0xff
    }
}

/// Whether an image loads as NROM: declared NROM, no trainer, and long enough.
pub open spec fn loads_as_nrom(f: &NESFile) -> bool {
    &&& f.spec_mapper_type() == MapperType::NROM
    &&& !crate::bits::Bitwise::bit(f.header.flags6, 2)
    &&& f.header.spec_prg_rom_size() as nat + f.header.spec_chr_rom_size() as nat <= f.data@.len()
}

pub struct FC {
    pub cpu: CPU,
    pub cart: Option<NESFile>,
}

impl FC {
    pub open spec fn wf(&self) -> bool {
        self.cpu.wf()
    }

    /// A console with no cartridge.
    pub fn new() -> (r: FC)
        ensures
            r.wf(),
            r.cart is None,
            r.cpu.cycles == 0,
    {
        FC { cpu: CPU::new(MemMap::empty(), PPU::new()), cart: None }
    }

    /// A console with the image `bytes` loaded and initialized.
    pub fn from_vec(bytes: Vec<u8>) -> (r: Result<FC, LoadError>)
        ensures
            r matches Ok(fc) ==> fc.wf() && fc.cart is Some && fc.cpu.cycles == crate::cpu::RESET_CYCLES
                && fc.cpu.reg.pc == fc.cpu.vector(RESET_VECTOR),
            bytes@.len() < 16 ==> r == Err::<FC, LoadError>(LoadError::Truncated),
            r is Ok <==> image_loads(bytes@),
            r matches Ok(fc) ==> fc.cart is Some && fc.cart->Some_0.header == header_of(bytes@)
                && fc.cart->Some_0.data@ == bytes@.subrange(HEADER_SIZE as int, bytes@.len() as int),
    {
        let mut fc = FC::new();
        match fc.load_rom(bytes) {
            Ok(()) => Ok(fc),
            Err(e) => Err(e),
        }
    }

    /// Loads the image `bytes` and hard-resets with it. On a malformed image
    /// the console is left as it was.
    pub fn load_rom(&mut self, bytes: Vec<u8>) -> (r: Result<(), LoadError>)
        requires
            old(self).wf(),
        ensures
            final(self).wf(),
            bytes@.len() < 16 ==> r == Err::<(), LoadError>(LoadError::Truncated),
            r is Ok <==> image_loads(bytes@),
            r is Ok ==> final(self).cart is Some && final(self).cart->Some_0.header == header_of(bytes@)
                && final(self).cart->Some_0.data@ == bytes@.subrange(HEADER_SIZE as int, bytes@.len() as int),
            r is Err ==> *final(self) == *old(self),
            r is Ok ==> final(self).cart is Some && final(self).cpu.cycles == crate::cpu::RESET_CYCLES
                && final(self).cpu.reg.pc == final(self).cpu.vector(RESET_VECTOR),
    {
        match NESFile::from_vec(bytes) {
            Err(e) => Err(e),
            Ok(file) => {
                match MemMap::from_nesfile(&file) {
                    Err(e) => Err(e),
                    Ok(_) => {
                        self.cart = Some(file);
                        self.reset_hard()
                    },
                }
            },
        }
    }

    /// Power cycle: a fresh bus from the loaded image, a fresh picture unit,
    /// and the processor initialized from the reset vector. Fails when no
    /// image is loaded or the image does not load.
    pub fn reset_hard(&mut self) -> (r: Result<(), LoadError>)
        requires
            old(self).wf(),
        ensures
            final(self).wf(),
            final(self).cart == old(self).cart,
            old(self).cart is None ==> r == Err::<(), LoadError>(LoadError::NotLoaded),
            r is Err ==> *final(self) == *old(self),
            old(self).cart is Some && crate::mem::loads(&old(self).cart->Some_0) ==> r is Ok,
            r is Ok ==> final(self).cpu.cycles == crate::cpu::RESET_CYCLES
                && final(self).cpu.reg.pc == final(self).cpu.vector(RESET_VECTOR),
            r is Ok ==> final(self).cpu.mem.ram@ == Seq::new(crate::mem::RAM_SIZE as nat, |i: int| 0u8),
            old(self).cart is Some && loads_as_nrom(&old(self).cart->Some_0) ==> r is Ok
                && final(self).cpu.reg.pc == address_of(
                prg_byte(&old(self).cart->Some_0, 0xfffc),
                prg_byte(&old(self).cart->Some_0, 0xfffd),
            ),
    {
        match &self.cart {
            None => Err(LoadError::NotLoaded),
            Some(nesfile) => {
                match MemMap::from_nesfile(nesfile) {
                    Err(e) => Err(e),
                    Ok(mem) => {
                        self.cpu = CPU::new(mem, PPU::new());
                        self.cpu.init();
                        Ok(())
                    },
                }
            },
        }
    }

    /// Soft reset.
    pub fn reset(&mut self)
        requires
            old(self).wf(),
        ensures
            final(self).wf(),
            final(self).cpu.reg.pc == old(self).cpu.vector(RESET_VECTOR),
            final(self).cpu.mem == old(self).cpu.mem,
            final(self).cart == old(self).cart,
    {
        self.cpu.reset();
    }

    pub fn init(&mut self)
        requires
            old(self).wf(),
        ensures
            final(self).wf(),
            final(self).cpu.reg.pc == old(self).cpu.vector(RESET_VECTOR),
            final(self).cart == old(self).cart,
    {
        self.cpu.init();
    }

    /// Executes one instruction (and the interrupt it triggers).
    pub fn step(&mut self) -> (r: Result<(), StepError>)
        requires
            old(self).wf(),
        ensures
            final(self).wf(),
            final(self).cart == old(self).cart,
            final(self).cpu.cycles >= old(self).cpu.cycles,
            r == Err::<(), StepError>(StepError::ClockExhausted) <==> !old(self).cpu.room(
                MAX_STEP_CYCLES as nat,
            ),
            r is Ok ==> final(self).cpu.cycles >= old(self).cpu.cycles + 2,
            old(self).cpu.room(MAX_STEP_CYCLES as nat) ==> CPU::stepped(&old(self).cpu, &final(self).cpu, r),
    {
        if self.cpu.cycles > CYCLE_LIMIT - MAX_STEP_CYCLES {
            return Err(StepError::ClockExhausted);
        }
        self.cpu.fetch_and_run()
    }

    /// Steps until the picture is complete.
    pub fn run_until_render_done(&mut self) -> (r: Result<(), StepError>)
        requires
            old(self).wf(),
        ensures
            final(self).wf(),
            final(self).cart == old(self).cart,
            r is Ok && final(self).cpu.room(MAX_STEP_CYCLES as nat) ==> final(self).cpu.ppu.scanline
                == 240,
            CPU::step_error(&final(self).cpu, r),
    {
        self.cpu.run_to_rendering_finished()
    }

    /// The RGB picture, 256 x 240 pixels of three bytes.
    pub fn get_frame(&self) -> (r: &[u8])
        ensures
            r@ == self.cpu.ppu.frame_buf@,
    {
        self.cpu.ppu.frame_buf.as_slice()
    }

    /// The four nametables as a 512 x 480 RGB image.
    pub fn get_nametables_dbg(&self) -> (r: Vec<u8>)
        requires
            self.wf(),
        ensures
            r@.len() == crate::ppu_debug::NAMETABLE_IMAGE_SIZE,
            forall|i: int|
                0 <= i < crate::ppu_debug::NAMETABLE_IMAGE_SIZE ==> r@[i]
                    == self.cpu.ppu.nametable_image_byte(&self.cpu.mem, i),
    {
        self.cpu.ppu.generate_nametables_image(&self.cpu.mem)
    }

    /// The byte the processor would read at `addr`, without side effects.
    pub fn read_byte(&self, addr: u16) -> (r: u8)
        requires
            self.wf(),
        ensures
            !is_ppu_port(addr) ==> r == self.cpu.peek(addr),
    {
        self.cpu.read_addr_nocycle(addr)
    }

    /// The byte at `addr` of the picture unit's space (0x0000 to 0x3FFF),
    /// without side effects; other addresses are refused.
    pub fn read_video_byte(&self, addr: u16) -> (r: Result<u8, crate::cpu::PeekError>)
        requires
            self.wf(),
        ensures
            addr < 0x4000 ==> r == Ok::<u8, crate::cpu::PeekError>(self.cpu.ppu.peek_vram(addr, &self.cpu.mem)),
            addr >= 0x4000 ==> r == Err::<u8, crate::cpu::PeekError>(crate::cpu::PeekError::OutsideVideoSpace),
    {
        self.cpu.read_addr_ppu(addr)
    }
}

} // verus!
