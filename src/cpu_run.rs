//! Reset, interrupts, OAM DMA, and the step that fetches and executes one
//! instruction.

use crate::bits::{address_of, as_address, Addr};
use crate::cpu::{
    wrap8, IllegalOpcodePolicy, ProcFlags, Registers, StepError, CPU, CYCLE_LIMIT, MAX_STEP_CYCLES,
    NMI_VECTOR, OAM_DMA_CYCLES, RESET_CYCLES, RESET_VECTOR,
};
use crate::inst::{decode, Inst};
use crate::inst_exec::{exec_post, mode_ok};
use crate::mapper::Memory;
use crate::mem::{is_ppu_port, MemMap};
use crate::ppu::PPU;
use vstd::prelude::*;

verus! {

/// `d` is `o` after the DMA that `o` has pending, or `o` itself.
pub open spec fn dma_done(o: &CPU, d: &CPU) -> bool {
    if o.reg.dma {
        &&& d.wf()
        &&& d.illegal_policy == o.illegal_policy
        &&& d.mem == o.mem
        &&& d.cycles == o.cycles + OAM_DMA_CYCLES
        &&& CPU::clocked(o, d)
        &&& d.reg == (Registers { dma: false, ..o.reg })
        &&& !(0x20 <= o.ppu.reg.oam_dma < 0x40) ==> forall|i: int|
            0 <= i < 256 ==> d.ppu.oam@[i] == o.peek((o.ppu.reg.oam_dma as int * 256 + i) as u16)
    } else {
        *d == *o
    }
}

/// `e` is `d` with the opcode fetched: one cycle, the program counter past it.
pub open spec fn opcode_fetched(d: &CPU, e: &CPU) -> bool {
    &&& CPU::kept(d, e)
    &&& e.reg == (Registers { pc: crate::cpu::wrap16(d.reg.pc + 1), ..d.reg })
    &&& e.cycles == d.cycles + 1
}

/// `p` is `m` padded to at least two cycles since the opcode fetch that
/// ended in `e`: one idle cycle when the instruction itself took none.
pub open spec fn padded(e: &CPU, m: &CPU, p: &CPU) -> bool {
    if m.cycles == e.cycles {
        &&& CPU::kept(m, p)
        &&& p.reg == m.reg
        &&& p.cycles == m.cycles + 1
    } else {
        *p == *m
    }
}

/// `n` is `p` after the interrupt check.
pub open spec fn nmi_checked(p: &CPU, n: &CPU) -> bool {
    &&& CPU::clocked(p, n)
    &&& n.wf()
    &&& n.illegal_policy == p.illegal_policy
    &&& p.ppu.reg.status.vblank && p.ppu.reg.control.nmi_enable && !p.reg.nmi ==> {
        &&& n.reg.pc == p.vector(NMI_VECTOR)
        &&& n.reg.nmi
        &&& n.cycles == p.cycles + 8
    }
    &&& p.ppu.reg.status.vblank && p.ppu.reg.control.nmi_enable && p.reg.nmi ==> *n == *p
    &&& !(p.ppu.reg.status.vblank && p.ppu.reg.control.nmi_enable) ==> *n == (CPU {
        reg: Registers { nmi: false, ..p.reg },
        ..*p
    })
}

impl CPU {
    /// The processor on a bus and a picture unit, registers at power-on values.
    pub fn new(mem: MemMap, ppu: PPU) -> (r: CPU)
        requires
            mem.mem_inv(),
            ppu.wf(),
            ppu.frame == 0,
        ensures
            r.wf(),
            r.reg == Registers::new_spec(),
            r.mem == mem,
            r.ppu == ppu,
            r.cycles == 0,
            r.illegal_policy == IllegalOpcodePolicy::Halt,
    {
        CPU { reg: Registers::new(), mem, ppu, cycles: 0, illegal_policy: IllegalOpcodePolicy::Halt }
    }

    /// The address a vector at `addr` holds, little-endian.
    pub open spec fn vector(&self, addr: u16) -> u16 {
        address_of(self.peek(addr), self.peek((addr + 1) as u16))
    }

    /// Loads the program counter from the reset vector and sets the counters
    /// to their post-reset values (7 cycles; the picture unit at dot 25).
    pub fn init(&mut self)
        requires
            old(self).wf(),
        ensures
            final(self).wf(),
            final(self).reg == (Registers { pc: old(self).vector(RESET_VECTOR), ..old(self).reg }),
            final(self).cycles == RESET_CYCLES,
            final(self).mem == old(self).mem,
            final(self).illegal_policy == old(self).illegal_policy,
            final(self).ppu.cycle == 25 && final(self).ppu.scanline == 0 && final(self).ppu.frame == 1,
    {
        let l = self.read_addr_nocycle(RESET_VECTOR);
        let m = self.read_addr_nocycle(RESET_VECTOR + 1);
        self.reg.pc = as_address(l, m);
        self.cycles = RESET_CYCLES;
        self.ppu.init();
    }

    /// Soft reset: the picture unit's registers cleared, the stack pointer
    /// lowered by three, interrupts disabled, then `init`.
    pub fn reset(&mut self)
        requires
            old(self).wf(),
        ensures
            final(self).wf(),
            final(self).reg == (Registers {
                pc: old(self).vector(RESET_VECTOR),
                sp: wrap8(old(self).reg.sp - 3),
                p: ProcFlags { i: true, ..old(self).reg.p },
                ..old(self).reg
            }),
            final(self).cycles == RESET_CYCLES,
            final(self).mem == old(self).mem,
    {
        self.ppu.reset();
        self.reg.pc = RESET_VECTOR;
        self.reg.sp = ((self.reg.sp as u16 + 253) % 256) as u8;
        self.reg.p.i = true;
        self.init();
    }

    /// Takes a non-maskable interrupt: pushes the program counter high byte
    /// first and the status, fetches the NMI vector and jumps there, marking
    /// the interrupt in flight; eight cycles.
    #[verifier::rlimit(100)]
    #[verifier::spinoff_prover]
    pub fn handle_nmi(&mut self)
        requires
            old(self).wf(),
            old(self).room(8),
        ensures
            final(self).wf(),
            final(self).illegal_policy == old(self).illegal_policy,
            final(self).ppu.oam == old(self).ppu.oam,
            final(self).mem.mapper == old(self).mem.mapper,
            final(self).cycles == old(self).cycles + 8,
            CPU::clocked(&*old(self), &*final(self)),
            final(self).mem.ram@ == old(self).mem.ram@.update(
                0x100 + old(self).reg.sp as int,
                (old(self).reg.pc as nat / 256) as u8,
            ).update(0x100 + wrap8(old(self).reg.sp - 1) as int, (old(self).reg.pc as nat % 256) as u8).update(
                0x100 + wrap8(old(self).reg.sp - 2) as int,
                old(self).reg.p.spec_byte() as u8,
            ),
            final(self).reg == (Registers {
                pc: old(self).vector(NMI_VECTOR),
                sp: wrap8(old(self).reg.sp - 3),
                nmi: true,
                ..old(self).reg
            }),
    {
        let ghost o = *self;
        let pc = self.reg.pc;
        self.push(pc.msb());
        self.push(pc.lsb());
        let p = self.reg.p.to_byte();
        self.push(p);
        let l = self.read_addr_cycle(NMI_VECTOR);
        let m = self.read_addr_cycle(NMI_VECTOR + 1);
        self.reg.pc = as_address(l, m);
        self.reg.nmi = true;
        proof {
            let sp = o.reg.sp as int;
            assert(wrap8(wrap8(sp - 1) - 1) == wrap8(sp - 2));
            assert(wrap8(wrap8(sp - 2) - 1) == wrap8(sp - 3));
        }
    }

    /// Copies page P (the value last written to the DMA port) into object
    /// attribute memory, byte i of the page to entry i in ascending order:
    /// one setup cycle and two per byte.
    pub fn handle_oam_dma(&mut self)
        requires
            old(self).wf(),
            old(self).room(OAM_DMA_CYCLES as nat),
        ensures
            final(self).wf(),
            final(self).illegal_policy == old(self).illegal_policy,
            final(self).mem == old(self).mem,
            final(self).cycles == old(self).cycles + OAM_DMA_CYCLES,
            CPU::clocked(&*old(self), &*final(self)),
            final(self).reg == (Registers { dma: false, ..old(self).reg }),
            final(self).ppu.oam@.len() == 256,
            !(0x20 <= old(self).ppu.reg.oam_dma < 0x40) ==> forall|i: int|
                0 <= i < 256 ==> final(self).ppu.oam@[i] == old(self).peek(
                    (old(self).ppu.reg.oam_dma as int * 256 + i) as u16,
                ),
    {
        let ghost o = *self;
        let src_msb = self.ppu.oamdma();
        let mut dst: u16 = 0;
        while dst < 256
            invariant
                self.wf(),
                dst <= 256,
                self.mem == o.mem,
                self.reg == o.reg,
                self.illegal_policy == o.illegal_policy,
                self.cycles == o.cycles + 2 * dst,
                CPU::clocked(&o, &*self),
                o.room(OAM_DMA_CYCLES as nat),
                src_msb == o.ppu.reg.oam_dma,
                !(0x20 <= src_msb < 0x40) ==> forall|i: int|
                    0 <= i < dst ==> self.ppu.oam@[i] == o.peek((src_msb as int * 256 + i) as u16),
            decreases 256 - dst,
        {
            let src_addr = as_address(dst as u8, src_msb);
            let val = self.read_addr_cycle(src_addr);
            self.ppu.write_oam(dst as u8, val);
            self.cycle();
            dst = dst + 1;
        }
        self.cycle();
        self.reg.dma = false;
    }

    /// Fetches the opcode at the program counter and moves past it; one cycle.
    pub fn fetch_next_inst(&mut self) -> (r: Inst)
        requires
            old(self).wf(),
            old(self).room(1),
        ensures
            CPU::kept(&*old(self), &*final(self)),
            final(self).reg == (Registers { pc: crate::cpu::wrap16(old(self).reg.pc + 1), ..old(self).reg }),
            final(self).cycles == old(self).cycles + 1,
            mode_ok(r),
            !is_ppu_port(old(self).reg.pc) ==> r == decode(old(self).b1()),
            r matches Inst::ILL(x) ==> decode(x) is ILL && (!is_ppu_port(old(self).reg.pc) ==> x
                == old(self).b1()),
    {
        let op = self.pc_read_inc();
        Inst::get(op)
    }

    /// The instruction the program counter points at, with no cycle.
    pub fn fetch_next_inst_nocycle(&self) -> (r: Inst)
        requires
            self.wf(),
        ensures
            !is_ppu_port(self.reg.pc) ==> r == decode(self.b1()),
    {
        Inst::get(self.pc_read_nocycle())
    }

    /// Interrupt check after an instruction: when the picture unit asks for an
    /// NMI and none is in flight, it is taken; when it does not ask, the
    /// in-flight mark is released.
    pub fn check_nmi(&mut self)
        requires
            old(self).wf(),
            old(self).room(8),
        ensures
            final(self).wf(),
            final(self).illegal_policy == old(self).illegal_policy,
            final(self).ppu.oam == old(self).ppu.oam,
            CPU::clocked(&*old(self), &*final(self)),
            old(self).ppu.reg.status.vblank && old(self).ppu.reg.control.nmi_enable && !old(self).reg.nmi
                ==> {
                &&& final(self).reg.pc == old(self).vector(NMI_VECTOR)
                &&& final(self).reg.nmi
                &&& final(self).cycles == old(self).cycles + 8
            },
            old(self).ppu.reg.status.vblank && old(self).ppu.reg.control.nmi_enable && old(self).reg.nmi
                ==> *final(self) == *old(self),
            !(old(self).ppu.reg.status.vblank && old(self).ppu.reg.control.nmi_enable) ==> *final(self)
                == (CPU { reg: Registers { nmi: false, ..old(self).reg }, ..*old(self) }),
    {
        if self.ppu.should_do_nmi() {
            if !self.reg.nmi {
                self.handle_nmi();
            }
        } else {
            self.reg.nmi = false;
        }
    }

    /// A step error is an opcode with no instruction under the halting policy:
    /// the program counter stands just past it and the byte there is it.
    pub open spec fn step_error(n: &CPU, r: Result<(), StepError>) -> bool {
        &&& r is Err ==> r->Err_0 is IllegalOpcode && n.illegal_policy == IllegalOpcodePolicy::Halt
        &&& r matches Err(StepError::IllegalOpcode { opcode, addr }) ==> {
            &&& decode(opcode) is ILL
            &&& n.reg.pc == crate::cpu::wrap16(addr + 1)
            &&& !is_ppu_port(addr) ==> n.peek(addr) == opcode
        }
    }

    /// `n` is `o` after one step that returned `r` (see `fetch_and_run`).
    pub open spec fn stepped(o: &CPU, n: &CPU, r: Result<(), StepError>) -> bool {
        &&& n.wf()
        &&& n.illegal_policy == o.illegal_policy
        &&& CPU::clocked(o, n)
        &&& o.cycles + 1 <= n.cycles <= o.cycles + MAX_STEP_CYCLES
        &&& r is Ok ==> n.cycles >= o.cycles + 2
        &&& !o.reg.dma && !is_ppu_port(o.reg.pc) ==> (r is Err <==> (decode(o.b1()) is ILL
            && o.illegal_policy == IllegalOpcodePolicy::Halt))
        &&& r is Ok && !is_ppu_port(o.reg.pc) ==> exists|d: CPU, e: CPU, m: CPU, p: CPU|
            #![auto]
            dma_done(o, &d) && opcode_fetched(&d, &e) && exec_post(&e, &m, decode(o.b1())) && padded(
                &e,
                &m,
                &p,
            ) && nmi_checked(&p, n)
        &&& r is Err ==> r->Err_0 is IllegalOpcode && o.illegal_policy == IllegalOpcodePolicy::Halt
        &&& r matches Err(StepError::IllegalOpcode { opcode, addr }) ==> {
            &&& decode(opcode) is ILL
            &&& n.reg.pc == crate::cpu::wrap16(addr + 1)
            &&& !is_ppu_port(addr) ==> n.peek(addr) == opcode
        }
    }

    /// One step: a pending OAM DMA, then one instruction (at least two
    /// cycles: a one-cycle instruction is padded), then the interrupt check.
    /// An opcode with no instruction is reported under the halting policy and
    /// executed as a one-byte no-op under the skipping one.
    #[verifier::rlimit(50)]
    pub fn fetch_and_run(&mut self) -> (r: Result<(), StepError>)
        requires
            old(self).wf(),
            old(self).room(MAX_STEP_CYCLES as nat),
        ensures
            CPU::stepped(&*old(self), &*final(self), r),
    {
        if self.reg.dma {
            self.handle_oam_dma();
        }
        let ghost d = *self;
        let before = self.cycles;
        let ghost pc0 = self.reg.pc;
        let inst = self.fetch_next_inst();
        let ghost e = *self;
        let res = inst.run(self);
        if res.is_err() && self.illegal_policy == IllegalOpcodePolicy::Halt {
            proof {
                assert(*self == e);
                let a = crate::cpu::wrap16(e.reg.pc - 1);
                assert(a == pc0);
                assert(crate::cpu::wrap16(a + 1) == e.reg.pc);
                assert(self.peek(pc0) == d.peek(pc0));
                assert(dma_done(&*old(self), &d));
            }
            return res;
        }
        let ghost m = *self;
        if self.cycles == before + 1 {
            self.cycle();
        }
        let ghost p = *self;
        self.check_nmi();
        proof {
            assert(dma_done(&*old(self), &d));
            assert(opcode_fetched(&d, &e));
            assert(padded(&e, &m, &p));
            assert(nmi_checked(&p, &*self));
        }
        Ok(())
    }

    /// The program counter.
    pub fn pc(&self) -> (r: u16)
        ensures
            r == self.reg.pc,
    {
        self.reg.pc
    }

    /// The cycle counter.
    pub fn cycles(&self) -> (r: u64)
        ensures
            r == self.cycles,
    {
        self.cycles
    }

    /// Steps until the picture unit reaches its post-render scanline (a
    /// finished picture), the step fails, or the cycle counter runs out of room.
    pub fn run_to_rendering_finished(&mut self) -> (r: Result<(), StepError>)
        requires
            old(self).wf(),
        ensures
            final(self).wf(),
            final(self).cycles >= old(self).cycles,
            final(self).illegal_policy == old(self).illegal_policy,
            CPU::step_error(&*final(self), r),
            r is Ok && final(self).room(MAX_STEP_CYCLES as nat) ==> final(self).ppu.scanline == 240,
    {
        loop
            invariant
                self.illegal_policy == old(self).illegal_policy,
                self.wf(),
                self.cycles >= old(self).cycles,
            decreases CYCLE_LIMIT - self.cycles,
        {
            if self.cycles > CYCLE_LIMIT - MAX_STEP_CYCLES {
                return Ok(());
            }
            let res = self.fetch_and_run();
            if res.is_err() {
                return res;
            }
            if self.ppu.just_finished_rendering() {
                return Ok(());
            }
        }
    }
}

impl CPU {
    /// Steps until a step ends with vblank newly set, the step fails, or the
    /// cycle counter runs out of room.
    pub fn run_to_vblank(&mut self) -> (r: Result<(), StepError>)
        requires
            old(self).wf(),
        ensures
            final(self).wf(),
            final(self).cycles >= old(self).cycles,
            final(self).illegal_policy == old(self).illegal_policy,
            CPU::step_error(&*final(self), r),
            r is Ok && final(self).room(MAX_STEP_CYCLES as nat) ==> final(self).ppu.reg.status.vblank,
    {
        loop
            invariant
                self.illegal_policy == old(self).illegal_policy,
                self.wf(),
                self.cycles >= old(self).cycles,
            decreases CYCLE_LIMIT - self.cycles,
        {
            if self.cycles > CYCLE_LIMIT - MAX_STEP_CYCLES {
                return Ok(());
            }
            let before = self.ppu.is_vblank();
            let res = self.fetch_and_run();
            if res.is_err() {
                return res;
            }
            let after = self.ppu.is_vblank();
            if after && !before {
                return Ok(());
            }
        }
    }
}

impl Registers {
    pub open spec fn new_spec() -> Registers {
        Registers {
            a: 0,
            x: 0,
            y: 0,
            p: ProcFlags::spec_from_byte(4),
            sp: 0xfd,
            pc: RESET_VECTOR,
            irq: false,
            nmi: false,
            dma: false,
        }
    }
}

} // verus!
