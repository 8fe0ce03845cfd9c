//! Operand access by addressing mode, each with its documented cycle cost.

use crate::bits::as_address;
use crate::cpu::{wrap16, AddrMode, IndexRegister, Registers, CPU};
use crate::mem::is_ppu_port;
use vstd::prelude::*;

verus! {

impl CPU {
    fn index_value(&self, ir: IndexRegister) -> (r: u8)
        ensures
            r == self.index_of(ir),
    {
        match ir {
            IndexRegister::N => 0,
            IndexRegister::X => self.reg.x,
            IndexRegister::Y => self.reg.y,
        }
    }

    /// Reads a 16-bit pointer at `addr`, the high byte from the same page; two cycles.
    pub fn get_indirect(&mut self, addr: u16) -> (r: u16)
        requires
            old(self).wf(),
            old(self).room(2),
        ensures
            CPU::kept(&*old(self), &*final(self)),
            final(self).reg == old(self).reg,
            final(self).cycles == old(self).cycles + 2,
            !is_ppu_port(addr) && !is_ppu_port(
                if addr as nat % 256 == 255 {
                    (addr - 255) as u16
                } else {
                    (addr + 1) as u16
                },
            ) ==> r == old(self).indirect(addr),
    {
        let hi_addr = if addr % 256 == 255 {
            addr - 255
        } else {
            addr + 1
        };
        let l = self.read_addr_cycle(addr);
        let m = self.read_addr_cycle(hi_addr);
        as_address(l, m)
    }

    /// Reads the zero-page operand without moving the program counter or
    /// paying for the index; two cycles.
    pub fn zp_read_cycle(&mut self, ir: IndexRegister) -> (r: u8)
        requires
            old(self).wf(),
            old(self).room(2),
        ensures
            CPU::kept(&*old(self), &*final(self)),
            final(self).reg == old(self).reg,
            final(self).cycles == old(self).cycles + 2,
            old(self).operand_stateless(AddrMode::ZP(ir)) ==> r == old(self).operand_value(AddrMode::ZP(ir)),
    {
        let operand = self.pc_read();
        let delta = self.index_value(ir);
        self.read_addr_cycle(as_address(operand.wrapping_add(delta), 0x00))
    }

    /// Reads the zero-page operand and moves past it; two cycles, three when indexed.
    pub fn zp_read_inc(&mut self, ir: IndexRegister) -> (r: u8)
        requires
            old(self).wf(),
            old(self).room(3),
        ensures
            CPU::kept(&*old(self), &*final(self)),
            final(self).reg == old(self).past_operand(AddrMode::ZP(ir)),
            final(self).cycles == old(self).cycles + old(self).read_cycles(AddrMode::ZP(ir)),
            old(self).operand_stateless(AddrMode::ZP(ir)) ==> r == old(self).operand_value(AddrMode::ZP(ir)),
    {
        let operand = self.pc_read_inc();
        let delta = self.index_value(ir);
        if ir != IndexRegister::N {
            self.cycle();
        }
        self.read_addr_cycle(as_address(operand.wrapping_add(delta), 0x00))
    }

    /// Writes `val` to the zero-page operand and moves past it; two cycles,
    /// three when indexed.
    pub fn zp_write_inc(&mut self, val: u8, ir: IndexRegister)
        requires
            old(self).wf(),
            old(self).room(3),
        ensures
            final(self).wf(),
            final(self).reg == old(self).past_operand(AddrMode::ZP(ir)),
            final(self).cycles == old(self).cycles + CPU::write_cycles(AddrMode::ZP(ir)),
            final(self).illegal_policy == old(self).illegal_policy,
            final(self).ppu.oam == old(self).ppu.oam,
            final(self).mem.mapper == old(self).mem.mapper,
            CPU::clocked(&*old(self), &*final(self)),
            !is_ppu_port(old(self).reg.pc) ==> CPU::stored(
                &*old(self),
                &*final(self),
                old(self).ea(AddrMode::ZP(ir)),
                val,
            ),
    {
        let operand = self.pc_read_inc();
        let delta = self.index_value(ir);
        if ir != IndexRegister::N {
            self.cycle();
        }
        let addr = as_address(operand.wrapping_add(delta), 0x00);
        self.write_addr_cycle(addr, val);
    }

    /// Reads the absolute operand without moving the program counter: two
    /// cycles for the address bytes, the operand itself read without a cycle
    /// and without side effects.
    pub fn abs_read_cycle(&mut self, ir: IndexRegister) -> (r: u8)
        requires
            old(self).wf(),
            old(self).room(2),
        ensures
            CPU::kept(&*old(self), &*final(self)),
            final(self).reg == old(self).reg,
            final(self).cycles == old(self).cycles + 2,
            old(self).operand_stateless(AddrMode::Abs(ir)) ==> r == old(self).operand_value(AddrMode::Abs(ir)),
    {
        let l = self.pc_read();
        self.cycle();
        let m = self.mem_read_no_sideeffect(((self.reg.pc as u32 + 1) % 65536) as u16);
        let addr = as_address(l, m);
        let delta = self.index_value(ir) as u16;
        self.read_addr_nocycle(addr.wrapping_add(delta))
    }

    /// Reads the absolute operand and moves past it; three cycles, four when
    /// the index crosses a page.
    #[verifier::rlimit(100)]
    #[verifier::spinoff_prover]
    pub fn abs_read_inc(&mut self, ir: IndexRegister) -> (r: u8)
        requires
            old(self).wf(),
            old(self).room(4),
        ensures
            CPU::kept(&*old(self), &*final(self)),
            final(self).cycles >= old(self).cycles,
            final(self).reg == old(self).past_operand(AddrMode::Abs(ir)),
            final(self).cycles <= old(self).cycles + 4,
            old(self).operand_stateless(AddrMode::Abs(ir)) ==> r == old(self).operand_value(AddrMode::Abs(ir)),
            old(self).addr_stateless(AddrMode::Abs(ir)) ==> final(self).cycles == old(self).cycles + old(self).read_cycles(
                AddrMode::Abs(ir),
            ),
    {
        let l = self.pc_read_inc();
        let m = self.pc_read_inc();
        let addr = as_address(l, m);
        let delta = self.index_value(ir) as u16;
        let ea = addr.wrapping_add(delta);
        if addr / 256 != ea / 256 {
            self.cycle();
        }
        self.read_addr_cycle(ea)
    }

    /// Writes `val` to the absolute operand and moves past it; three cycles,
    /// four when indexed (the worst case is always paid).
    #[verifier::rlimit(100)]
    #[verifier::spinoff_prover]
    pub fn abs_write_inc(&mut self, val: u8, ir: IndexRegister)
        requires
            old(self).wf(),
            old(self).room(4),
        ensures
            final(self).wf(),
            final(self).reg == old(self).past_operand(AddrMode::Abs(ir)) || final(self).reg == (Registers {
                dma: true,
                ..old(self).past_operand(AddrMode::Abs(ir))
            }),
            final(self).cycles == old(self).cycles + CPU::write_cycles(AddrMode::Abs(ir)),
            final(self).illegal_policy == old(self).illegal_policy,
            CPU::clocked(&*old(self), &*final(self)),
            !is_ppu_port(old(self).reg.pc) && !is_ppu_port(wrap16(old(self).reg.pc + 1)) ==> {
                &&& CPU::stored(&*old(self), &*final(self), old(self).ea(AddrMode::Abs(ir)), val)
                &&& final(self).reg == CPU::reg_after_store(
                    old(self).past_operand(AddrMode::Abs(ir)),
                    old(self).ea(AddrMode::Abs(ir)),
                )
            },
    {
        let l = self.pc_read_inc();
        let m = self.pc_read_inc();
        let addr = as_address(l, m);
        let delta = self.index_value(ir) as u16;
        if ir != IndexRegister::N {
            self.cycle();
        }
        self.write_addr_cycle(addr.wrapping_add(delta), val);
    }
    /// Reads an indirect operand and moves past it: (zp,X) takes five cycles,
    /// (zp),Y four and one more when the index crosses a page.
    #[verifier::rlimit(100)]
    #[verifier::spinoff_prover]
    pub fn ind_read_inc(&mut self, ir: IndexRegister) -> (r: u8)
        requires
            old(self).wf(),
            old(self).room(5),
            ir != IndexRegister::N,
        ensures
            CPU::kept(&*old(self), &*final(self)),
            final(self).cycles >= old(self).cycles,
            final(self).reg == old(self).past_operand(AddrMode::Ind(ir)),
            final(self).cycles <= old(self).cycles + 5,
            old(self).operand_stateless(AddrMode::Ind(ir)) ==> r == old(self).operand_value(AddrMode::Ind(ir)),
            old(self).addr_stateless(AddrMode::Ind(ir)) ==> final(self).cycles == old(self).cycles + old(self).read_cycles(
                AddrMode::Ind(ir),
            ),
    {
        let m = self.pc_read_inc();
        if ir == IndexRegister::X {
            let ptr = as_address(m.wrapping_add(self.reg.x), 0x00);
            let addr = self.get_indirect(ptr);
            self.cycle();
            self.read_addr_cycle(addr)
        } else {
            let ptr = as_address(m, 0x00);
            let base = self.get_indirect(ptr);
            let addr = base.wrapping_add(self.reg.y as u16);
            if base / 256 != addr / 256 {
                self.cycle();
            }
            self.read_addr_cycle(addr)
        }
    }

    /// Writes `val` to an indirect operand and moves past it; five cycles.
    #[verifier::rlimit(100)]
    #[verifier::spinoff_prover]
    pub fn ind_write_inc(&mut self, val: u8, ir: IndexRegister)
        requires
            old(self).wf(),
            old(self).room(5),
            ir != IndexRegister::N,
        ensures
            final(self).wf(),
            final(self).reg == old(self).past_operand(AddrMode::Ind(ir)) || final(self).reg == (Registers {
                dma: true,
                ..old(self).past_operand(AddrMode::Ind(ir))
            }),
            final(self).cycles == old(self).cycles + CPU::write_cycles(AddrMode::Ind(ir)),
            final(self).illegal_policy == old(self).illegal_policy,
            CPU::clocked(&*old(self), &*final(self)),
            !is_ppu_port(old(self).reg.pc) ==> {
                &&& CPU::stored(&*old(self), &*final(self), old(self).ea(AddrMode::Ind(ir)), val)
                &&& final(self).reg == CPU::reg_after_store(
                    old(self).past_operand(AddrMode::Ind(ir)),
                    old(self).ea(AddrMode::Ind(ir)),
                )
            },
    {
        let pcval = self.pc_read_inc();
        if ir == IndexRegister::X {
            let ptr = as_address(pcval.wrapping_add(self.reg.x), 0x00);
            let addr = self.get_indirect(ptr);
            self.cycle();
            self.write_addr_cycle(addr, val);
        } else {
            let ptr = as_address(pcval, 0x00);
            let addr = self.get_indirect(ptr).wrapping_add(self.reg.y as u16);
            self.cycle();
            self.write_addr_cycle(addr, val);
        }
    }

    /// Reads the operand of a read-modify-write instruction without moving the
    /// program counter: accumulator 0 cycles, immediate 1, zero page and
    /// absolute 2.
    pub fn operand_read_cycle(&mut self, am: AddrMode) -> (r: u8)
        requires
            old(self).wf(),
            old(self).room(2),
            am is Acc || am is Imm || am is ZP || am is Abs,
        ensures
            CPU::kept(&*old(self), &*final(self)),
            final(self).reg == old(self).reg,
            final(self).cycles == old(self).cycles + match am {
                AddrMode::Acc => 0nat,
                AddrMode::Imm => 1nat,
                _ => 2nat,
            },
            old(self).operand_stateless(am) ==> r == old(self).operand_value(am),
    {
        match am {
            AddrMode::Acc => self.reg.a,
            AddrMode::Imm => self.pc_read(),
            AddrMode::ZP(ir) => self.zp_read_cycle(ir),
            AddrMode::Abs(ir) => self.abs_read_cycle(ir),
            _ => 0,
        }
    }

    /// Reads the operand in the given mode and moves past it.
    pub fn operand_read_inc(&mut self, am: AddrMode) -> (r: u8)
        requires
            old(self).wf(),
            old(self).room(5),
            CPU::is_read_mode(am),
        ensures
            CPU::kept(&*old(self), &*final(self)),
            final(self).cycles >= old(self).cycles,
            final(self).reg == old(self).past_operand(am),
            final(self).cycles <= old(self).cycles + 5,
            old(self).operand_stateless(am) ==> r == old(self).operand_value(am),
            old(self).addr_stateless(am) ==> final(self).cycles == old(self).cycles + old(self).read_cycles(
                am,
            ),
    {
        match am {
            AddrMode::Acc => self.reg.a,
            AddrMode::Imm => self.pc_read_inc(),
            AddrMode::ZP(ir) => self.zp_read_inc(ir),
            AddrMode::Abs(ir) => self.abs_read_inc(ir),
            AddrMode::Ind(ir) => self.ind_read_inc(ir),
            _ => 0,
        }
    }

    /// Writes `val` to the operand in the given mode and moves past it.
    pub fn operand_write_inc(&mut self, am: AddrMode, val: u8)
        requires
            old(self).wf(),
            old(self).room(5),
            CPU::is_write_mode(am),
        ensures
            final(self).wf(),
            final(self).reg == old(self).past_operand(am) || final(self).reg == (Registers {
                dma: true,
                ..old(self).past_operand(am)
            }),
            final(self).cycles == old(self).cycles + CPU::write_cycles(am),
            final(self).illegal_policy == old(self).illegal_policy,
            CPU::clocked(&*old(self), &*final(self)),
            !is_ppu_port(old(self).reg.pc) && (am is Abs ==> !is_ppu_port(wrap16(old(self).reg.pc + 1)))
                ==> {
                &&& CPU::stored(&*old(self), &*final(self), old(self).ea(am), val)
                &&& final(self).reg == CPU::reg_after_store(old(self).past_operand(am), old(self).ea(am))
            },
    {
        match am {
            AddrMode::ZP(ir) => self.zp_write_inc(val, ir),
            AddrMode::Abs(ir) => self.abs_write_inc(val, ir),
            AddrMode::Ind(ir) => self.ind_write_inc(val, ir),
            _ => {},
        }
    }
}

} // verus!
