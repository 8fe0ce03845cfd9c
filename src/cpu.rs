//! The processor: registers and flags, the timed bus that ticks the picture
//! unit on every access, the stack, and the addressing modes with their
//! cycle costs.

use crate::bits::{address_of, as_address, Addr, Bitwise};
use crate::mapper::Memory;
use crate::mem::{is_ppu_port, MemMap};
use crate::ppu::{ADDRESS_OAMDMA, PPU};
use crate::ppu_regs::b2n;
use vstd::prelude::*;

verus! {

pub const CPU_FREQ: u64 = 1_789_773;

pub const MASTER_FREQ: u64 = 21_477_272;

pub const MASTER_FREQ_60HZ: u64 = 21_441_960;

pub const NMI_VECTOR: u16 = 0xfffa;

pub const RESET_VECTOR: u16 = 0xfffc;

pub const IRQ_VECTOR: u16 = 0xfffe;

/// Cycle count right after reset.
pub const RESET_CYCLES: u64 = 7;

/// Cycles an OAM DMA takes: one setup cycle and two per copied byte.
pub const OAM_DMA_CYCLES: u64 = 513;

/// Cycles the interrupt sequence takes: three pushes and the vector fetch.
pub const NMI_CYCLES: u64 = 8;

/// Most cycles one step can take: a DMA, the longest instruction with its
/// page crossing, and an interrupt.
pub const MAX_STEP_CYCLES: u64 = 530;

/// The cycle counter stays at or below this value; a step needs
/// `MAX_STEP_CYCLES` of room below it.
pub const CYCLE_LIMIT: u64 = 0xffff_ffff_0000_0000;

/// `n` modulo 2^16.
pub open spec fn wrap16(n: int) -> u16 {
    (n % 65536) as u16
}

/// `n` modulo 2^8.
pub open spec fn wrap8(n: int) -> u8 {
    (n % 256) as u8
}

/// Whether the high bytes of two addresses differ.
pub open spec fn crossed(a: u16, b: u16) -> bool {
    a as nat / 256 != b as nat / 256
}

/// The processor status flags. Packed, bit 0 is carry, 1 zero, 2 interrupt
/// disable, 3 decimal, 4 break, 6 overflow, 7 negative; bit 5 reads as 0.
#[derive(Clone, Copy, PartialEq, Eq, Structural)]
pub struct ProcFlags {
    pub c: bool,
    pub z: bool,
    pub i: bool,
    pub d: bool,
    pub b: bool,
    pub v: bool,
    pub n: bool,
}

impl ProcFlags {
    pub open spec fn spec_from_byte(val: u8) -> ProcFlags {
        ProcFlags {
            c: val.bit(0),
            z: val.bit(1),
            i: val.bit(2),
            d: val.bit(3),
            b: val.bit(4),
            v: val.bit(6),
            n: val.bit(7),
        }
    }

    /// Unpacks a status byte.
    pub fn from_byte(val: u8) -> (r: ProcFlags)
        ensures
            r == ProcFlags::spec_from_byte(val),
    {
        ProcFlags {
            c: val.test_bit(0),
            z: val.test_bit(1),
            i: val.test_bit(2),
            d: val.test_bit(3),
            b: val.test_bit(4),
            v: val.test_bit(6),
            n: val.test_bit(7),
        }
    }

    pub open spec fn spec_byte(&self) -> nat {
        b2n(self.c) + 2 * b2n(self.z) + 4 * b2n(self.i) + 8 * b2n(self.d) + 16 * b2n(self.b) + 64
            * b2n(self.v) + 128 * b2n(self.n)
    }

    /// Packs the flags into a status byte.
    pub fn to_byte(&self) -> (r: u8)
        ensures
            r as nat == self.spec_byte(),
    {
        let mut r: u8 = 0;
        if self.c {
            r = r + 1;
        }
        if self.z {
            r = r + 2;
        }
        if self.i {
            r = r + 4;
        }
        if self.d {
            r = r + 8;
        }
        if self.b {
            r = r + 16;
        }
        if self.v {
            r = r + 64;
        }
        if self.n {
            r = r + 128;
        }
        r
    }
}

/// What to do on an opcode with no instruction.
#[derive(Clone, Copy, PartialEq, Eq, Structural, Debug)]
pub enum IllegalOpcodePolicy {
    /// Stop and report it to the caller.
    Halt,
    /// Treat it as a one-byte no-op and go on.
    Skip,
}

/// Why a diagnostic read was refused.
#[derive(Clone, Copy, PartialEq, Eq, Structural, Debug)]
pub enum PeekError {
    /// The address lies outside the picture unit's 14-bit address space.
    OutsideVideoSpace,
}

/// Why a step could not complete.
#[derive(Clone, Copy, PartialEq, Eq, Structural, Debug)]
pub enum StepError {
    /// The opcode at `addr` has no instruction.
    IllegalOpcode { opcode: u8, addr: u16 },
    /// The cycle counter has no room left for another step.
    ClockExhausted,
}

#[derive(Clone, Copy)]
pub struct Registers {
    pub a: u8,
    pub x: u8,
    pub y: u8,
    pub p: ProcFlags,
    pub sp: u8,
    pub pc: u16,
    pub irq: bool,
    /// An NMI has been taken and not yet released.
    pub nmi: bool,
    /// An OAM DMA is pending.
    pub dma: bool,
}

impl Registers {
    /// Power-on values: interrupts disabled, stack pointer 0xFD.
    pub fn new() -> (r: Registers)
        ensures
            r.a == 0 && r.x == 0 && r.y == 0 && r.sp == 0xfd && r.pc == RESET_VECTOR,
            r.p == ProcFlags::spec_from_byte(4),
            !r.irq && !r.nmi && !r.dma,
    {
        Registers {
            a: 0,
            x: 0,
            y: 0,
            p: ProcFlags::from_byte(4),
            sp: 0xfd,
            pc: RESET_VECTOR,
            irq: false,
            nmi: false,
            dma: false,
        }
    }
}

/// Which index register an addressing mode adds.
#[derive(Clone, Copy, PartialEq, Eq, Structural, Debug)]
pub enum IndexRegister {
    N,
    X,
    Y,
}

/// Addressing modes.
#[derive(Clone, Copy, PartialEq, Eq, Structural, Debug)]
pub enum AddrMode {
    Imp,
    Acc,
    Imm,
    ZP(IndexRegister),
    Rel,
    Abs(IndexRegister),
    Ind(IndexRegister),
}

pub struct CPU {
    pub reg: Registers,
    pub mem: MemMap,
    pub ppu: PPU,
    pub cycles: u64,
    pub illegal_policy: IllegalOpcodePolicy,
}

impl CPU {
    pub open spec fn wf(&self) -> bool {
        &&& self.mem.mem_inv()
        &&& self.ppu.wf()
        &&& self.ppu.frame <= self.cycles
        &&& self.cycles <= CYCLE_LIMIT
    }

    /// Room for `n` more cycles below the limit.
    pub open spec fn room(&self, n: nat) -> bool {
        self.cycles + n <= CYCLE_LIMIT
    }

    /// The picture unit has run three dots for every cycle from `o` to `n`.
    pub open spec fn clocked(o: &CPU, n: &CPU) -> bool {
        n.ppu.dots() == o.ppu.dots() + 3 * (n.cycles - o.cycles)
    }

    /// `n` came from `o` by bus reads and ticks only: memory, OAM and the
    /// policy are unchanged.
    pub open spec fn kept(o: &CPU, n: &CPU) -> bool {
        &&& CPU::clocked(o, n)
        &&& n.wf()
        &&& n.mem == o.mem
        &&& n.ppu.oam == o.ppu.oam
        &&& n.illegal_policy == o.illegal_policy
    }

    /// The byte a read of `addr` gives outside the picture unit's ports.
    pub open spec fn peek(&self, addr: u16) -> u8 {
        self.mem.peek(addr)
    }

    pub open spec fn index_of(&self, ir: IndexRegister) -> u8 {
        match ir {
            IndexRegister::N => 0,
            IndexRegister::X => self.reg.x,
            IndexRegister::Y => self.reg.y,
        }
    }

    /// The first operand byte (at the program counter).
    pub open spec fn b1(&self) -> u8 {
        self.peek(self.reg.pc)
    }

    /// The second operand byte.
    pub open spec fn b2(&self) -> u8 {
        self.peek(wrap16(self.reg.pc + 1))
    }

    /// The 16-bit pointer read at `ptr`, whose high byte comes from the same
    /// page (0xFF wraps to 0x00).
    pub open spec fn indirect(&self, ptr: u16) -> u16 {
        let hi_addr = if ptr as nat % 256 == 255 {
            (ptr - 255) as u16
        } else {
            (ptr + 1) as u16
        };
        address_of(self.peek(ptr), self.peek(hi_addr))
    }

    pub open spec fn abs_base(&self) -> u16 {
        address_of(self.b1(), self.b2())
    }

    /// The effective address of an operand, the program counter at its first byte.
    pub open spec fn ea(&self, am: AddrMode) -> u16 {
        match am {
            AddrMode::Imm => self.reg.pc,
            AddrMode::ZP(ir) => wrap8(self.b1() + self.index_of(ir)) as u16,
            AddrMode::Abs(ir) => wrap16(self.abs_base() + self.index_of(ir)),
            AddrMode::Ind(IndexRegister::X) => self.indirect(wrap8(self.b1() + self.reg.x) as u16),
            AddrMode::Ind(IndexRegister::Y) => wrap16(self.indirect(self.b1() as u16) + self.reg.y),
            AddrMode::Ind(IndexRegister::N) => self.indirect(self.abs_base()),
            _ => 0,
        }
    }

    /// Operand bytes after the opcode.
    pub open spec fn operand_len(am: AddrMode) -> nat {
        match am {
            AddrMode::Imm | AddrMode::ZP(_) | AddrMode::Rel => 1,
            AddrMode::Ind(IndexRegister::X) | AddrMode::Ind(IndexRegister::Y) => 1,
            AddrMode::Abs(_) | AddrMode::Ind(IndexRegister::N) => 2,
            _ => 0,
        }
    }

    /// Modes that read an operand.
    pub open spec fn is_read_mode(am: AddrMode) -> bool {
        match am {
            AddrMode::Acc | AddrMode::Imm | AddrMode::ZP(_) | AddrMode::Abs(_) => true,
            AddrMode::Ind(IndexRegister::X) | AddrMode::Ind(IndexRegister::Y) => true,
            _ => false,
        }
    }

    /// Modes that write an operand.
    pub open spec fn is_write_mode(am: AddrMode) -> bool {
        match am {
            AddrMode::ZP(_) | AddrMode::Abs(_) => true,
            AddrMode::Ind(IndexRegister::X) | AddrMode::Ind(IndexRegister::Y) => true,
            _ => false,
        }
    }

    /// Cycles to read an operand: accumulator 0, immediate 1, zero page 2 (+1
    /// indexed), absolute 3 (+1 on a page crossing), (zp,X) 5, (zp),Y 4 (+1 on
    /// a page crossing).
    pub open spec fn read_cycles(&self, am: AddrMode) -> nat {
        match am {
            AddrMode::Acc => 0,
            AddrMode::Imm => 1,
            AddrMode::ZP(IndexRegister::N) => 2,
            AddrMode::ZP(_) => 3,
            AddrMode::Abs(_) => 3 + b2n(crossed(self.abs_base(), self.ea(am))),
            AddrMode::Ind(IndexRegister::X) => 5,
            AddrMode::Ind(IndexRegister::Y) => 4 + b2n(
                crossed(self.indirect(self.b1() as u16), self.ea(am)),
            ),
            _ => 0,
        }
    }

    /// Cycles to write an operand: zero page 2 (+1 indexed), absolute 3 (+1
    /// indexed, crossing or not), indirect 5.
    pub open spec fn write_cycles(am: AddrMode) -> nat {
        match am {
            AddrMode::ZP(IndexRegister::N) => 2,
            AddrMode::ZP(_) => 3,
            AddrMode::Abs(IndexRegister::N) => 3,
            AddrMode::Abs(_) => 4,
            AddrMode::Ind(_) => 5,
            _ => 0,
        }
    }

    /// Every byte an operand access reads (opcode operands, pointers and the
    /// operand itself) lies outside the picture unit's ports.
    pub open spec fn operand_stateless(&self, am: AddrMode) -> bool {
        match am {
            AddrMode::Acc => true,
            AddrMode::Imm => !is_ppu_port(self.reg.pc),
            AddrMode::ZP(_) => !is_ppu_port(self.reg.pc) && !is_ppu_port(self.ea(am)),
            AddrMode::Abs(_) => !is_ppu_port(self.reg.pc) && !is_ppu_port(wrap16(self.reg.pc + 1))
                && !is_ppu_port(self.ea(am)),
            _ => !is_ppu_port(self.reg.pc) && !is_ppu_port(self.ea(am)),
        }
    }

    /// The bytes that fix an operand's address (the operand bytes after the
    /// opcode; pointers lie in zero page, which is RAM) are outside the ports.
    pub open spec fn addr_stateless(&self, am: AddrMode) -> bool {
        match am {
            AddrMode::Abs(_) => !is_ppu_port(self.reg.pc) && !is_ppu_port(wrap16(self.reg.pc + 1)),
            AddrMode::Ind(_) => !is_ppu_port(self.reg.pc),
            _ => true,
        }
    }

    /// The operand value a read-mode access yields.
    pub open spec fn operand_value(&self, am: AddrMode) -> u8 {
        match am {
            AddrMode::Acc => self.reg.a,
            _ => self.peek(self.ea(am)),
        }
    }

    /// The registers with the program counter moved past the operand bytes.
    pub open spec fn past_operand(&self, am: AddrMode) -> Registers {
        Registers { pc: wrap16(self.reg.pc + CPU::operand_len(am)), ..self.reg }
    }

    /// `n` is `o` after a processor write of `val` at `addr` (registers and
    /// cycles aside): bus memory for ordinary addresses, a pending DMA for the
    /// DMA port; a port write changes the picture unit only.
    pub open spec fn stored(o: &CPU, n: &CPU, addr: u16, val: u8) -> bool {
        &&& CPU::clocked(o, n)
        &&& n.wf()
        &&& n.illegal_policy == o.illegal_policy
        &&& if is_ppu_port(addr) {
            n.mem == o.mem
        } else if addr == ADDRESS_OAMDMA {
            &&& n.mem == o.mem
            &&& n.ppu.oam == o.ppu.oam
            &&& n.ppu.reg.oam_dma == val
        } else {
            &&& MemMap::written(&o.mem, &n.mem, addr, val)
            &&& n.ppu.oam == o.ppu.oam
        }
    }

    /// Registers after a write of a value at `addr`: a write to the DMA port
    /// marks a DMA pending.
    pub open spec fn reg_after_store(r: Registers, addr: u16) -> Registers {
        Registers { dma: r.dma || addr == ADDRESS_OAMDMA, ..r }
    }

    /// Advances the shared clock by one processor cycle: the picture unit runs
    /// three dots.
    pub fn cycle(&mut self)
        requires
            old(self).wf(),
            old(self).room(1),
        ensures
            CPU::kept(&*old(self), &*final(self)),
            final(self).reg == old(self).reg,
            final(self).cycles == old(self).cycles + 1,
            final(self).ppu.same_memory(&old(self).ppu),
            final(self).ppu.dots() == old(self).ppu.dots() + 3,
            crate::ppu_render::ticked(&old(self).ppu, &final(self).ppu),
    {
        self.cycles = self.cycles + 1;
        self.ppu.cycle(&self.mem);
    }

    /// A bus read with side effects and no cycle of its own.
    pub(crate) fn mem_read(&mut self, addr: u16) -> (r: u8)
        requires
            old(self).wf(),
        ensures
            CPU::kept(&*old(self), &*final(self)),
            final(self).reg == old(self).reg,
            final(self).cycles == old(self).cycles,
            !is_ppu_port(addr) ==> r == old(self).peek(addr) && final(self).ppu == old(self).ppu,
    {
        if 0x2000 <= addr && addr < 0x4000 {
            self.ppu.read_mmio((addr % 8) + 0x2000, &self.mem)
        } else {
            self.mem.read(addr)
        }
    }

    /// A bus read without side effects: the ports read as their side-effect-free values.
    pub fn mem_read_no_sideeffect(&self, addr: u16) -> (r: u8)
        requires
            self.wf(),
        ensures
            !is_ppu_port(addr) ==> r == self.peek(addr),
    {
        if 0x2000 <= addr && addr < 0x4000 {
            self.ppu.read_mmio_no_sideeffect((addr % 8) + 0x2000)
        } else {
            self.mem.read(addr)
        }
    }

    /// A bus write with no cycle of its own.
    pub(crate) fn mem_write(&mut self, addr: u16, val: u8)
        requires
            old(self).wf(),
        ensures
            CPU::stored(&*old(self), &*final(self), addr, val),
            final(self).reg == CPU::reg_after_store(old(self).reg, addr),
            final(self).cycles == old(self).cycles,
            !is_ppu_port(addr) && addr != ADDRESS_OAMDMA ==> final(self).ppu == old(self).ppu,
    {
        if 0x2000 <= addr && addr < 0x4000 {
            self.ppu.write_mmio((addr % 8) + 0x2000, val, &mut self.mem);
        } else if addr == ADDRESS_OAMDMA {
            self.ppu.write_oamdma(val);
            self.reg.dma = true;
        } else {
            self.mem.write(addr, val);
        }
    }

    /// Reads `addr` with no cycle and no side effect.
    pub fn read_addr_nocycle(&self, addr: u16) -> (r: u8)
        requires
            self.wf(),
        ensures
            !is_ppu_port(addr) ==> r == self.peek(addr),
    {
        self.mem_read_no_sideeffect(addr)
    }

    /// Reads the picture unit's address space (0x0000 to 0x3FFF) with no side
    /// effect; other addresses are refused.
    pub fn read_addr_ppu(&self, addr: u16) -> (r: Result<u8, PeekError>)
        requires
            self.wf(),
        ensures
            addr < 0x4000 ==> r == Ok::<u8, PeekError>(self.ppu.peek_vram(addr, &self.mem)),
            addr >= 0x4000 ==> r == Err::<u8, PeekError>(PeekError::OutsideVideoSpace),
    {
        if addr >= 0x4000 {
            return Err(PeekError::OutsideVideoSpace);
        }
        Ok(self.ppu.read_addr(addr, &self.mem))
    }

    /// Reads `addr` in one cycle.
    pub fn read_addr_cycle(&mut self, addr: u16) -> (r: u8)
        requires
            old(self).wf(),
            old(self).room(1),
        ensures
            CPU::kept(&*old(self), &*final(self)),
            final(self).reg == old(self).reg,
            final(self).cycles == old(self).cycles + 1,
            !is_ppu_port(addr) ==> r == old(self).peek(addr),
    {
        self.cycle();
        self.mem_read(addr)
    }

    /// Writes `val` at `addr` in one cycle.
    pub fn write_addr_cycle(&mut self, addr: u16, val: u8)
        requires
            old(self).wf(),
            old(self).room(1),
        ensures
            CPU::stored(&*old(self), &*final(self), addr, val),
            final(self).reg == CPU::reg_after_store(old(self).reg, addr),
            final(self).cycles == old(self).cycles + 1,
    {
        self.cycle();
        self.mem_write(addr, val);
    }

    /// The byte at the program counter, with no cycle and no side effect.
    pub fn pc_read_nocycle(&self) -> (r: u8)
        requires
            self.wf(),
        ensures
            !is_ppu_port(self.reg.pc) ==> r == self.b1(),
    {
        self.mem_read_no_sideeffect(self.reg.pc)
    }

    /// The byte at the program counter, in one cycle.
    pub fn pc_read(&mut self) -> (r: u8)
        requires
            old(self).wf(),
            old(self).room(1),
        ensures
            CPU::kept(&*old(self), &*final(self)),
            final(self).reg == old(self).reg,
            final(self).cycles == old(self).cycles + 1,
            !is_ppu_port(old(self).reg.pc) ==> r == old(self).b1(),
    {
        self.cycle();
        self.mem_read(self.reg.pc)
    }

    /// Moves the program counter forward by one, within 16 bits.
    pub fn pc_inc(&mut self)
        ensures
            final(self).reg == (Registers { pc: wrap16(old(self).reg.pc + 1), ..old(self).reg }),
            final(self).mem == old(self).mem,
            final(self).ppu == old(self).ppu,
            final(self).cycles == old(self).cycles,
            final(self).illegal_policy == old(self).illegal_policy,
    {
        self.reg.pc = ((self.reg.pc as u32 + 1) % 65536) as u16;
    }

    /// The byte at the program counter, which then moves past it; one cycle.
    pub fn pc_read_inc(&mut self) -> (r: u8)
        requires
            old(self).wf(),
            old(self).room(1),
        ensures
            CPU::kept(&*old(self), &*final(self)),
            final(self).reg == (Registers { pc: wrap16(old(self).reg.pc + 1), ..old(self).reg }),
            final(self).cycles == old(self).cycles + 1,
            !is_ppu_port(old(self).reg.pc) ==> r == old(self).b1(),
    {
        let val = self.pc_read();
        self.pc_inc();
        val
    }

    /// Adds a signed offset to the program counter: one cycle, and one more
    /// when the high byte changes.
    pub(crate) fn pc_offset_cycle(&mut self, offset: u8)
        requires
            old(self).wf(),
            old(self).room(2),
        ensures
            CPU::kept(&*old(self), &*final(self)),
            final(self).reg == (Registers {
                pc: wrap16(old(self).reg.pc + offset as int - if offset >= 128 { 256int } else { 0int }),
                ..old(self).reg
            }),
            final(self).cycles == old(self).cycles + 1 + b2n(crossed(old(self).reg.pc, final(self).reg.pc)),
    {
        let old_pc = self.reg.pc;
        let new_pc: u16 = if offset < 128 {
            ((old_pc as u32 + offset as u32) % 65536) as u16
        } else {
            ((old_pc as u32 + 65536 - (256 - offset as u32)) % 65536) as u16
        };
        if new_pc.msb() != old_pc.msb() {
            self.cycle();
        }
        self.reg.pc = new_pc;
        self.cycle();
    }

    /// Pushes `val` at 0x0100 + SP, then decrements SP within the page; two cycles.
    pub(crate) fn push(&mut self, val: u8)
        requires
            old(self).wf(),
            old(self).room(2),
        ensures
            final(self).wf(),
            final(self).illegal_policy == old(self).illegal_policy,
            final(self).ppu.oam == old(self).ppu.oam,
            final(self).mem.ram@ == old(self).mem.ram@.update(0x100 + old(self).reg.sp as int, val),
            final(self).mem.mapper == old(self).mem.mapper,
            final(self).reg == (Registers { sp: wrap8(old(self).reg.sp - 1), ..old(self).reg }),
            final(self).cycles == old(self).cycles + 2,
            CPU::clocked(&*old(self), &*final(self)),
    {
        self.write_addr_cycle(as_address(self.reg.sp, 0x01), val);
        self.reg.sp = ((self.reg.sp as u16 + 255) % 256) as u8;
        self.cycle();
    }

    /// Increments SP within the page and reads 0x0100 + SP; one cycle.
    pub(crate) fn pull_noextra(&mut self) -> (r: u8)
        requires
            old(self).wf(),
            old(self).room(1),
        ensures
            CPU::kept(&*old(self), &*final(self)),
            final(self).reg == (Registers { sp: wrap8(old(self).reg.sp + 1), ..old(self).reg }),
            final(self).cycles == old(self).cycles + 1,
            r == old(self).mem.ram@[0x100 + wrap8(old(self).reg.sp + 1) as int],
    {
        self.reg.sp = ((self.reg.sp as u16 + 1) % 256) as u8;
        self.read_addr_cycle(as_address(self.reg.sp, 0x01))
    }

    /// As `pull_noextra`, after two idle cycles; three cycles.
    pub(crate) fn pull(&mut self) -> (r: u8)
        requires
            old(self).wf(),
            old(self).room(3),
        ensures
            CPU::kept(&*old(self), &*final(self)),
            final(self).reg == (Registers { sp: wrap8(old(self).reg.sp + 1), ..old(self).reg }),
            final(self).cycles == old(self).cycles + 3,
            r == old(self).mem.ram@[0x100 + wrap8(old(self).reg.sp + 1) as int],
    {
        self.cycle();
        self.cycle();
        self.pull_noextra()
    }
}

} // verus!
