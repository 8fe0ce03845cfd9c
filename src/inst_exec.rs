//! What each instruction does to registers, flags, memory and the clock.

use crate::bits::{address_of, Addr};
use crate::cpu::{
    crossed, wrap16, wrap8, AddrMode, IndexRegister, ProcFlags, Registers, CPU, IRQ_VECTOR,
};
use crate::inst::Inst;
use crate::mem::is_ppu_port;
use crate::ppu_regs::b2n;
use vstd::prelude::*;

verus! {

/// Flags with zero and negative set from `v`.
pub open spec fn with_nz(p: ProcFlags, v: u8) -> ProcFlags {
    ProcFlags { z: v == 0, n: v >= 128, ..p }
}

/// Binary add with carry: the 8-bit result, the carry out of the 9-bit sum,
/// and signed overflow (operands of one sign, result of the other).
pub open spec fn adc_spec(a: u8, m: u8, c: bool) -> (u8, bool, bool) {
    let sum = a as nat + m as nat + b2n(c);
    let r = (sum % 256) as u8;
    (r, sum > 255, ((a >= 128) == (m >= 128)) && ((r >= 128) != (a >= 128)))
}

/// Registers after adding `m` with carry to the accumulator.
pub open spec fn adc_regs(r: Registers, m: u8) -> Registers {
    let (res, c, v) = adc_spec(r.a, m, r.p.c);
    Registers { a: res, p: ProcFlags { c, v, ..with_nz(r.p, res) }, ..r }
}

/// Flags after comparing a register with `m`: carry when the register is
/// at least `m`, zero when equal, negative from bit 7 of the difference.
pub open spec fn cmp_flags(p: ProcFlags, reg: u8, m: u8) -> ProcFlags {
    ProcFlags { c: reg >= m, z: reg == m, n: wrap8(reg - m) >= 128, ..p }
}

/// The bitwise operation of AND, EOR and ORA.
#[derive(Clone, Copy, PartialEq, Eq, Structural, Debug)]
pub enum LogicOp {
    And,
    Eor,
    Ora,
}

pub open spec fn logic(op: LogicOp, a: u8, m: u8) -> u8 {
    match op {
        LogicOp::And => a & m,
        LogicOp::Eor => a ^ m,
        LogicOp::Ora => a | m,
    }
}

/// The register an instruction loads, stores or compares.
#[derive(Clone, Copy, PartialEq, Eq, Structural, Debug)]
pub enum InstrReg {
    A,
    X,
    Y,
}

pub open spec fn reg_value(r: Registers, which: InstrReg) -> u8 {
    match which {
        InstrReg::A => r.a,
        InstrReg::X => r.x,
        InstrReg::Y => r.y,
    }
}

/// Registers after loading `m` into a register, with zero and negative set.
pub open spec fn load_regs(r: Registers, which: InstrReg, m: u8) -> Registers {
    let p = with_nz(r.p, m);
    match which {
        InstrReg::A => Registers { a: m, p, ..r },
        InstrReg::X => Registers { x: m, p, ..r },
        InstrReg::Y => Registers { y: m, p, ..r },
    }
}

/// Registers after an instruction that reads operand `m`.
pub open spec fn alu_result(inst: Inst, r: Registers, m: u8) -> Registers {
    match inst {
        Inst::ADC(_) => adc_regs(r, m),
        Inst::SBC(_) => adc_regs(r, (255 - m) as u8),
        Inst::AND(_) => Registers { a: logic(LogicOp::And, r.a, m), p: with_nz(r.p, logic(LogicOp::And, r.a, m)), ..r },
        Inst::EOR(_) => Registers { a: logic(LogicOp::Eor, r.a, m), p: with_nz(r.p, logic(LogicOp::Eor, r.a, m)), ..r },
        Inst::ORA(_) => Registers { a: logic(LogicOp::Ora, r.a, m), p: with_nz(r.p, logic(LogicOp::Ora, r.a, m)), ..r },
        Inst::CMP(_) => Registers { p: cmp_flags(r.p, r.a, m), ..r },
        Inst::CPX(_) => Registers { p: cmp_flags(r.p, r.x, m), ..r },
        Inst::CPY(_) => Registers { p: cmp_flags(r.p, r.y, m), ..r },
        Inst::BIT(_) => Registers {
            p: ProcFlags { z: r.a & m == 0, v: (m as nat / 64) % 2 == 1, n: m >= 128, ..r.p },
            ..r
        },
        Inst::LDA(_) => load_regs(r, InstrReg::A, m),
        Inst::LDX(_) => load_regs(r, InstrReg::X, m),
        Inst::LDY(_) => load_regs(r, InstrReg::Y, m),
        _ => r,
    }
}

/// `n` is `o` after an instruction that reads its operand in mode `am`: the
/// registers follow `alu_result` for the operand read, and for an operand
/// outside the picture unit's ports that is the operand in memory, read in
/// the documented number of cycles.
pub open spec fn read_post(o: &CPU, n: &CPU, inst: Inst, am: AddrMode) -> bool {
    &&& CPU::kept(o, n)
    &&& o.cycles <= n.cycles <= o.cycles + 5
    &&& exists|m: u8| n.reg == alu_result(inst, o.past_operand(am), m)
    &&& o.operand_stateless(am) ==> n.reg == alu_result(inst, o.past_operand(am), o.operand_value(am))
    &&& o.addr_stateless(am) ==> n.cycles == o.cycles + o.read_cycles(am)
}

/// `n` is `o` after storing `val` in mode `am`.
pub open spec fn store_post(o: &CPU, n: &CPU, am: AddrMode, val: u8) -> bool {
    &&& n.wf()
    &&& n.reg == o.past_operand(am) || n.reg == (Registers { dma: true, ..o.past_operand(am) })
    &&& n.cycles == o.cycles + CPU::write_cycles(am)
    &&& CPU::clocked(o, n)
    &&& n.illegal_policy == o.illegal_policy
    &&& !is_ppu_port(o.reg.pc) && (am is Abs ==> !is_ppu_port(wrap16(o.reg.pc + 1))) ==> {
        &&& CPU::stored(o, n, o.ea(am), val)
        &&& n.reg == CPU::reg_after_store(o.past_operand(am), o.ea(am))
    }
}

/// The read-modify-write operations.
#[derive(Clone, Copy, PartialEq, Eq, Structural, Debug)]
pub enum RmwOp {
    Asl,
    Lsr,
    Rol,
    Ror,
    Inc,
    Dec,
}

/// Result and carry of a read-modify-write operation on `m` with carry in `c`:
/// shifts move bit 7 (left) or bit 0 (right) into the carry, rotations also
/// move the old carry in; increments and decrements wrap and keep the carry.
pub open spec fn rmw_value(op: RmwOp, m: u8, c: bool) -> (u8, bool) {
    match op {
        RmwOp::Asl => (((m as nat * 2) % 256) as u8, m >= 128),
        RmwOp::Lsr => ((m as nat / 2) as u8, m as nat % 2 == 1),
        RmwOp::Rol => (((m as nat * 2) % 256 + b2n(c)) as u8, m >= 128),
        RmwOp::Ror => ((m as nat / 2 + 128 * b2n(c)) as u8, m as nat % 2 == 1),
        RmwOp::Inc => (wrap8(m + 1), c),
        RmwOp::Dec => (wrap8(m - 1), c),
    }
}

/// Flags after a read-modify-write operation on `m`.
pub open spec fn rmw_flags(op: RmwOp, p: ProcFlags, m: u8) -> ProcFlags {
    let (res, c) = rmw_value(op, m, p.c);
    ProcFlags { c, ..with_nz(p, res) }
}

/// `n` is `o` after a read-modify-write instruction in mode `am`: on the
/// accumulator in no extra cycle, in memory in two cycles to read and the
/// write cost of the mode to write back.
pub open spec fn rmw_post(o: &CPU, n: &CPU, am: AddrMode, op: RmwOp) -> bool {
    if am is Acc {
        &&& CPU::kept(o, n)
        &&& n.cycles == o.cycles
        &&& n.reg == (Registers {
            a: rmw_value(op, o.reg.a, o.reg.p.c).0,
            p: rmw_flags(op, o.reg.p, o.reg.a),
            ..o.reg
        })
    } else {
        &&& n.wf()
        &&& n.illegal_policy == o.illegal_policy
        &&& n.cycles == o.cycles + 2 + CPU::write_cycles(am)
        &&& CPU::clocked(o, n)
        &&& o.operand_stateless(am) ==> {
            let m = o.operand_value(am);
            &&& CPU::stored(o, n, o.ea(am), rmw_value(op, m, o.reg.p.c).0)
            &&& n.reg == CPU::reg_after_store(
                Registers { p: rmw_flags(op, o.reg.p, m), ..o.past_operand(am) },
                o.ea(am),
            )
        }
    }
}

/// The signed value of an offset byte.
pub open spec fn signed(b: u8) -> int {
    if b >= 128 {
        b as int - 256
    } else {
        b as int
    }
}

/// `n` is `o` after a branch on `cond`: taken, the program counter moves by
/// the signed offset from past the operand, one cycle more and another when
/// the page changes.
pub open spec fn branch_post(o: &CPU, n: &CPU, cond: bool) -> bool {
    &&& CPU::kept(o, n)
    &&& o.cycles + 1 <= n.cycles <= o.cycles + 3
    &&& n.reg == (Registers { pc: n.reg.pc, ..o.reg })
    &&& !is_ppu_port(o.reg.pc) ==> {
        let next = wrap16(o.reg.pc + 1);
        let target = wrap16(next + signed(o.b1()));
        &&& n.reg.pc == if cond { target } else { next }
        &&& n.cycles == o.cycles + 1 + if cond { 1 + b2n(crossed(next, target)) } else { 0 }
    }
}

/// Whether a branch instruction is taken under flags `p`.
pub open spec fn branch_taken(inst: Inst, p: ProcFlags) -> bool {
    match inst {
        Inst::BCC(_) => !p.c,
        Inst::BCS(_) => p.c,
        Inst::BEQ(_) => p.z,
        Inst::BMI(_) => p.n,
        Inst::BNE(_) => !p.z,
        Inst::BPL(_) => !p.n,
        Inst::BVC(_) => !p.v,
        Inst::BVS(_) => p.v,
        _ => false,
    }
}

/// The stack byte `k` places above the stack pointer.
pub open spec fn stack_byte(o: &CPU, k: int) -> u8 {
    o.mem.ram@[0x100 + wrap8(o.reg.sp + k) as int]
}

/// Loads `val` into a register, setting zero and negative.
pub fn load_reg(r: Registers, which: InstrReg, val: u8) -> (out: Registers)
    ensures
        out == load_regs(r, which, val),
{
    let p = ProcFlags { z: val == 0, n: val >= 128, ..r.p };
    match which {
        InstrReg::A => Registers { a: val, p, ..r },
        InstrReg::X => Registers { x: val, p, ..r },
        InstrReg::Y => Registers { y: val, p, ..r },
    }
}

/// Adds `m` with carry to the accumulator.
pub fn add_with_carry(r: Registers, m: u8) -> (out: Registers)
    ensures
        out == adc_regs(r, m),
{
    let a = r.a;
    let sum: u16 = a as u16 + m as u16 + if r.p.c {
        1u16
    } else {
        0u16
    };
    let res = (sum % 256) as u8;
    let v = ((a >= 128) == (m >= 128)) && ((res >= 128) != (a >= 128));
    Registers { a: res, p: ProcFlags { c: sum > 255, z: res == 0, v, n: res >= 128, ..r.p }, ..r }
}

/// Compares register `reg` with `m`.
pub fn compare(p: ProcFlags, reg: u8, m: u8) -> (out: ProcFlags)
    ensures
        out == cmp_flags(p, reg, m),
{
    ProcFlags { c: reg >= m, z: reg == m, n: reg.wrapping_sub(m) >= 128, ..p }
}

fn get_reg(cpu: &CPU, which: InstrReg) -> (r: u8)
    ensures
        r == reg_value(cpu.reg, which),
{
    match which {
        InstrReg::A => cpu.reg.a,
        InstrReg::X => cpu.reg.x,
        InstrReg::Y => cpu.reg.y,
    }
}

/// AND, EOR and ORA.
pub fn a_op(cpu: &mut CPU, am: AddrMode, op: LogicOp)
    requires
        old(cpu).wf(),
        old(cpu).room(5),
        CPU::is_read_mode(am),
    ensures
        read_post(
            &*old(cpu),
            &*final(cpu),
            match op {
                LogicOp::And => Inst::AND(am),
                LogicOp::Eor => Inst::EOR(am),
                LogicOp::Ora => Inst::ORA(am),
            },
            am,
        ),
{
    let ghost o = *cpu;
    let m = cpu.operand_read_inc(am);
    let a = cpu.reg.a;
    let r = match op {
        LogicOp::And => a & m,
        LogicOp::Eor => a ^ m,
        LogicOp::Ora => a | m,
    };
    cpu.reg = load_reg(cpu.reg, InstrReg::A, r);
    proof {
        let inst = match op {
            LogicOp::And => Inst::AND(am),
            LogicOp::Eor => Inst::EOR(am),
            LogicOp::Ora => Inst::ORA(am),
        };
        assert(cpu.reg == alu_result(inst, o.past_operand(am), m));
    }
}

/// LDA, LDX and LDY.
pub fn ld(cpu: &mut CPU, am: AddrMode, which: InstrReg)
    requires
        old(cpu).wf(),
        old(cpu).room(5),
        CPU::is_read_mode(am),
    ensures
        read_post(
            &*old(cpu),
            &*final(cpu),
            match which {
                InstrReg::A => Inst::LDA(am),
                InstrReg::X => Inst::LDX(am),
                InstrReg::Y => Inst::LDY(am),
            },
            am,
        ),
{
    let ghost o = *cpu;
    let m = cpu.operand_read_inc(am);
    cpu.reg = load_reg(cpu.reg, which, m);
    proof {
        let inst = match which {
            InstrReg::A => Inst::LDA(am),
            InstrReg::X => Inst::LDX(am),
            InstrReg::Y => Inst::LDY(am),
        };
        assert(cpu.reg == alu_result(inst, o.past_operand(am), m));
    }
}

/// STA, STX and STY.
pub fn st(cpu: &mut CPU, am: AddrMode, which: InstrReg)
    requires
        old(cpu).wf(),
        old(cpu).room(5),
        CPU::is_write_mode(am),
    ensures
        store_post(&*old(cpu), &*final(cpu), am, reg_value(old(cpu).reg, which)),
{
    let val = get_reg(cpu, which);
    cpu.operand_write_inc(am, val);
}

/// ADC, and SBC as ADC of the complemented operand.
pub fn adc(cpu: &mut CPU, am: AddrMode, sbc: bool)
    requires
        old(cpu).wf(),
        old(cpu).room(5),
        CPU::is_read_mode(am),
    ensures
        read_post(&*old(cpu), &*final(cpu), if sbc { Inst::SBC(am) } else { Inst::ADC(am) }, am),
{
    let ghost o = *cpu;
    let raw = cpu.operand_read_inc(am);
    let m: u8 = if sbc {
        255 - raw
    } else {
        raw
    };
    cpu.reg = add_with_carry(cpu.reg, m);
    proof {
        let inst = if sbc {
            Inst::SBC(am)
        } else {
            Inst::ADC(am)
        };
        assert(cpu.reg == alu_result(inst, o.past_operand(am), raw));
    }
}

/// CMP, CPX and CPY.
pub fn cmp(cpu: &mut CPU, am: AddrMode, which: InstrReg)
    requires
        old(cpu).wf(),
        old(cpu).room(5),
        CPU::is_read_mode(am),
    ensures
        read_post(
            &*old(cpu),
            &*final(cpu),
            match which {
                InstrReg::A => Inst::CMP(am),
                InstrReg::X => Inst::CPX(am),
                InstrReg::Y => Inst::CPY(am),
            },
            am,
        ),
{
    let ghost o = *cpu;
    let r = get_reg(cpu, which);
    let m = cpu.operand_read_inc(am);
    cpu.reg.p = compare(cpu.reg.p, r, m);
    proof {
        let inst = match which {
            InstrReg::A => Inst::CMP(am),
            InstrReg::X => Inst::CPX(am),
            InstrReg::Y => Inst::CPY(am),
        };
        assert(cpu.reg == alu_result(inst, o.past_operand(am), m));
    }
}

/// BIT: zero from accumulator AND operand, overflow and negative from bits
/// 6 and 7 of the operand.
pub fn bit(cpu: &mut CPU, am: AddrMode)
    requires
        old(cpu).wf(),
        old(cpu).room(5),
        CPU::is_read_mode(am),
    ensures
        read_post(&*old(cpu), &*final(cpu), Inst::BIT(am), am),
{
    let ghost o = *cpu;
    let a = cpu.reg.a;
    let m = cpu.operand_read_inc(am);
    cpu.reg.p = ProcFlags { z: a & m == 0, v: (m / 64) % 2 == 1, n: m >= 128, ..cpu.reg.p };
    proof {
        assert(cpu.reg == alu_result(Inst::BIT(am), o.past_operand(am), m));
    }
}

/// Applies a read-modify-write operation: result and carry.
pub fn rmw_apply(op: RmwOp, m: u8, c: bool) -> (out: (u8, bool))
    ensures
        out == rmw_value(op, m, c),
{
    match op {
        RmwOp::Asl => (((m as u16 * 2) % 256) as u8, m >= 128),
        RmwOp::Lsr => (m / 2, m % 2 == 1),
        RmwOp::Rol => ((((m as u16 * 2) % 256) + if c {
            1u16
        } else {
            0u16
        }) as u8, m >= 128),
        RmwOp::Ror => (m / 2 + if c {
            128u8
        } else {
            0u8
        }, m % 2 == 1),
        RmwOp::Inc => (((m as u16 + 1) % 256) as u8, c),
        RmwOp::Dec => (((m as u16 + 255) % 256) as u8, c),
    }
}

/// Flags after a read-modify-write operation on `m`.
fn rmw_flags_of(op: RmwOp, p: ProcFlags, m: u8) -> (out: (u8, ProcFlags))
    ensures
        out.0 == rmw_value(op, m, p.c).0,
        out.1 == rmw_flags(op, p, m),
{
    let (res, c) = rmw_apply(op, m, p.c);
    (res, ProcFlags { c, z: res == 0, n: res >= 128, ..p })
}

/// A read-modify-write operation on memory.
#[verifier::rlimit(50)]
fn rmw_mem(cpu: &mut CPU, am: AddrMode, op: RmwOp)
    requires
        old(cpu).wf(),
        old(cpu).room(7),
        am is ZP || am is Abs,
    ensures
        rmw_post(&*old(cpu), &*final(cpu), am, op),
{
    let ghost o = *cpu;
    let m = cpu.operand_read_cycle(am);
    let (res, p) = rmw_flags_of(op, cpu.reg.p, m);
    cpu.reg.p = p;
    let ghost mid = *cpu;
    assert(mid.ea(am) == o.ea(am));
    assert(mid.operand_stateless(am) == o.operand_stateless(am));
    cpu.operand_write_inc(am, res);
}

/// ASL, LSR, ROL, ROR, INC and DEC.
pub fn rmw(cpu: &mut CPU, am: AddrMode, op: RmwOp)
    requires
        old(cpu).wf(),
        old(cpu).room(7),
        am is Acc || am is ZP || am is Abs,
    ensures
        rmw_post(&*old(cpu), &*final(cpu), am, op),
{
    match am {
        AddrMode::Acc => {
            let (res, p) = rmw_flags_of(op, cpu.reg.p, cpu.reg.a);
            cpu.reg = Registers { a: res, p, ..cpu.reg };
        },
        _ => rmw_mem(cpu, am, op),
    }
}

/// A conditional branch; `cond` is whether it is taken.
pub fn branch(cpu: &mut CPU, cond: bool)
    requires
        old(cpu).wf(),
        old(cpu).room(3),
    ensures
        branch_post(&*old(cpu), &*final(cpu), cond),
{
    let offset = cpu.pc_read_inc();
    if cond {
        cpu.pc_offset_cycle(offset);
    }
}

/// `n` is `o` after JMP in mode `am` (absolute, or indirect through a pointer
/// whose high byte comes from the same page).
pub open spec fn jmp_post(o: &CPU, n: &CPU, am: AddrMode) -> bool {
    &&& CPU::kept(o, n)
    &&& n.reg == (Registers { pc: n.reg.pc, ..o.reg })
    &&& n.cycles == o.cycles + if am is Abs { 2nat } else { 4nat }
    &&& !is_ppu_port(o.reg.pc) && !is_ppu_port(wrap16(o.reg.pc + 1)) ==> (am is Abs ==> n.reg.pc
        == o.abs_base())
    &&& ({
        let ptr = o.abs_base();
        let hi = if ptr as nat % 256 == 255 {
            (ptr - 255) as u16
        } else {
            (ptr + 1) as u16
        };
        !is_ppu_port(o.reg.pc) && !is_ppu_port(wrap16(o.reg.pc + 1)) && !is_ppu_port(ptr)
            && !is_ppu_port(hi) && am is Ind ==> n.reg.pc == o.indirect(ptr)
    })
}

/// JMP, absolute or indirect.
pub fn jmp(cpu: &mut CPU, am: AddrMode)
    requires
        old(cpu).wf(),
        old(cpu).room(4),
        am == AddrMode::Abs(IndexRegister::N) || am == AddrMode::Ind(IndexRegister::N),
    ensures
        jmp_post(&*old(cpu), &*final(cpu), am),
{
    let l = cpu.pc_read_inc();
    let m = cpu.pc_read_inc();
    let addr = crate::bits::as_address(l, m);
    if am == AddrMode::Abs(IndexRegister::N) {
        cpu.reg.pc = addr;
    } else {
        let target = cpu.get_indirect(addr);
        cpu.reg.pc = target;
    }
}

/// `n` is `o` after JSR: the address of the operand's last byte pushed high
/// byte first, then a jump to the operand; five cycles.
pub open spec fn jsr_post(o: &CPU, n: &CPU) -> bool {
    let ret = wrap16(o.reg.pc + 1);
    &&& n.wf()
    &&& n.illegal_policy == o.illegal_policy
    &&& n.ppu.oam == o.ppu.oam
    &&& n.mem.mapper == o.mem.mapper
    &&& CPU::clocked(o, n)
    &&& n.cycles == o.cycles + 5
    &&& n.mem.ram@ == o.mem.ram@.update(0x100 + o.reg.sp as int, (ret as nat / 256) as u8).update(
        0x100 + wrap8(o.reg.sp - 1) as int,
        (ret as nat % 256) as u8,
    )
    &&& n.reg == (Registers { pc: n.reg.pc, sp: wrap8(o.reg.sp - 2), ..o.reg })
    &&& !is_ppu_port(o.reg.pc) && !is_ppu_port(wrap16(o.reg.pc + 1)) ==> n.reg.pc == o.abs_base()
}

/// JSR.
pub fn jsr(cpu: &mut CPU)
    requires
        old(cpu).wf(),
        old(cpu).room(5),
    ensures
        jsr_post(&*old(cpu), &*final(cpu)),
{
    let l = cpu.pc_read_inc();
    let m = cpu.pc_read_nocycle();
    let ret = cpu.reg.pc;
    cpu.push(ret.msb());
    cpu.push(ret.lsb());
    cpu.reg.pc = crate::bits::as_address(l, m);
}

/// `n` is `o` after RTS (pull the return address, jump past it) or RTI (pull
/// the status, then the address, and jump to it); five cycles.
pub open spec fn rts_post(o: &CPU, n: &CPU, rti: bool) -> bool {
    &&& CPU::kept(o, n)
    &&& n.cycles == o.cycles + 5
    &&& n.reg == if rti {
        Registers {
            p: ProcFlags::spec_from_byte(stack_byte(o, 1)),
            pc: address_of(stack_byte(o, 2), stack_byte(o, 3)),
            sp: wrap8(o.reg.sp + 3),
            ..o.reg
        }
    } else {
        Registers {
            pc: wrap16(address_of(stack_byte(o, 1), stack_byte(o, 2)) + 1),
            sp: wrap8(o.reg.sp + 2),
            ..o.reg
        }
    }
}

/// RTS and RTI.
#[verifier::rlimit(50)]
pub fn rts(cpu: &mut CPU, rti: bool)
    requires
        old(cpu).wf(),
        old(cpu).room(5),
    ensures
        rts_post(&*old(cpu), &*final(cpu), rti),
{
    let ghost o = *cpu;
    if rti {
        let p = cpu.pull_noextra();
        cpu.reg.p = ProcFlags::from_byte(p);
    } else {
        cpu.cycle();
    }
    let l = cpu.pull();
    let m = cpu.pull_noextra();
    let addr = crate::bits::as_address(l, m);
    cpu.reg.pc = if rti {
        addr
    } else {
        ((addr as u32 + 1) % 65536) as u16
    };
    proof {
        let sp = o.reg.sp as int;
        assert(wrap8(wrap8(sp + 1) + 1) == wrap8(sp + 2));
        assert(wrap8(wrap8(sp + 2) + 1) == wrap8(sp + 3));
    }
}

/// `n` is `o` after BRK: the address past the padding byte and the status
/// pushed, then a jump through the IRQ vector; six cycles.
pub open spec fn brk_post(o: &CPU, n: &CPU) -> bool {
    let ret = wrap16(o.reg.pc + 1);
    &&& n.wf()
    &&& n.illegal_policy == o.illegal_policy
    &&& n.ppu.oam == o.ppu.oam
    &&& n.mem.mapper == o.mem.mapper
    &&& CPU::clocked(o, n)
    &&& n.cycles == o.cycles + 6
    &&& n.mem.ram@ == o.mem.ram@.update(0x100 + o.reg.sp as int, (ret as nat / 256) as u8).update(
        0x100 + wrap8(o.reg.sp - 1) as int,
        (ret as nat % 256) as u8,
    ).update(0x100 + wrap8(o.reg.sp - 2) as int, o.reg.p.spec_byte() as u8)
    &&& n.reg == (Registers {
        pc: address_of(o.peek(IRQ_VECTOR), o.peek((IRQ_VECTOR + 1) as u16)),
        sp: wrap8(o.reg.sp - 3),
        ..o.reg
    })
}

/// BRK.
pub fn brk(cpu: &mut CPU)
    requires
        old(cpu).wf(),
        old(cpu).room(6),
    ensures
        brk_post(&*old(cpu), &*final(cpu)),
{
    let ghost o = *cpu;
    let ret = ((cpu.reg.pc as u32 + 1) % 65536) as u16;
    cpu.push(ret.msb());
    cpu.push(ret.lsb());
    let p = cpu.reg.p.to_byte();
    cpu.push(p);
    let l = cpu.read_addr_nocycle(IRQ_VECTOR);
    let m = cpu.read_addr_nocycle(IRQ_VECTOR + 1);
    cpu.reg.pc = crate::bits::as_address(l, m);
    proof {
        let sp = o.reg.sp as int;
        assert(wrap8(wrap8(sp - 1) - 1) == wrap8(sp - 2));
        assert(wrap8(wrap8(sp - 2) - 1) == wrap8(sp - 3));
    }
}

/// `n` is `o` after pushing `val`: two cycles.
pub open spec fn push_post(o: &CPU, n: &CPU, val: u8) -> bool {
    &&& n.wf()
    &&& n.illegal_policy == o.illegal_policy
    &&& n.ppu.oam == o.ppu.oam
    &&& n.mem.mapper == o.mem.mapper
    &&& CPU::clocked(o, n)
    &&& n.cycles == o.cycles + 2
    &&& n.mem.ram@ == o.mem.ram@.update(0x100 + o.reg.sp as int, val)
    &&& n.reg == (Registers { sp: wrap8(o.reg.sp - 1), ..o.reg })
}

/// `n` is `o` after PLA (`plp` false) or PLP: three cycles.
pub open spec fn pull_post(o: &CPU, n: &CPU, plp: bool) -> bool {
    let v = stack_byte(o, 1);
    let r = Registers { sp: wrap8(o.reg.sp + 1), ..o.reg };
    &&& CPU::kept(o, n)
    &&& n.cycles == o.cycles + 3
    &&& n.reg == if plp {
        Registers { p: ProcFlags::spec_from_byte(v), ..r }
    } else {
        load_regs(r, InstrReg::A, v)
    }
}

/// PLA and PLP.
pub fn pull_op(cpu: &mut CPU, plp: bool)
    requires
        old(cpu).wf(),
        old(cpu).room(3),
    ensures
        pull_post(&*old(cpu), &*final(cpu), plp),
{
    let v = cpu.pull();
    if plp {
        cpu.reg.p = ProcFlags::from_byte(v);
    } else {
        cpu.reg = load_reg(cpu.reg, InstrReg::A, v);
    }
}

/// Registers after an instruction that needs no operand and no bus access:
/// flag changes, transfers, increments and decrements of X and Y, NOP.
pub open spec fn implied_result(inst: Inst, r: Registers) -> Registers {
    match inst {
        Inst::CLC(_) => Registers { p: ProcFlags { c: false, ..r.p }, ..r },
        Inst::CLD(_) => Registers { p: ProcFlags { d: false, ..r.p }, ..r },
        Inst::CLI(_) => Registers { p: ProcFlags { i: false, ..r.p }, ..r },
        Inst::CLV(_) => Registers { p: ProcFlags { v: false, ..r.p }, ..r },
        Inst::SEC(_) => Registers { p: ProcFlags { c: true, ..r.p }, ..r },
        Inst::SED(_) => Registers { p: ProcFlags { d: true, ..r.p }, ..r },
        Inst::SEI(_) => Registers { p: ProcFlags { i: true, ..r.p }, ..r },
        Inst::DEX(_) => load_regs(r, InstrReg::X, wrap8(r.x - 1)),
        Inst::DEY(_) => load_regs(r, InstrReg::Y, wrap8(r.y - 1)),
        Inst::INX(_) => load_regs(r, InstrReg::X, wrap8(r.x + 1)),
        Inst::INY(_) => load_regs(r, InstrReg::Y, wrap8(r.y + 1)),
        Inst::TAX(_) => load_regs(r, InstrReg::X, r.a),
        Inst::TAY(_) => load_regs(r, InstrReg::Y, r.a),
        Inst::TXA(_) => load_regs(r, InstrReg::A, r.x),
        Inst::TYA(_) => load_regs(r, InstrReg::A, r.y),
        Inst::TSX(_) => load_regs(r, InstrReg::X, r.sp),
        Inst::TXS(_) => Registers { sp: r.x, ..r },
        _ => r,
    }
}

/// Whether an instruction needs neither operand nor bus.
pub open spec fn is_implied(inst: Inst) -> bool {
    match inst {
        Inst::CLC(_) | Inst::CLD(_) | Inst::CLI(_) | Inst::CLV(_) | Inst::SEC(_) | Inst::SED(_)
        | Inst::SEI(_) | Inst::DEX(_) | Inst::DEY(_) | Inst::INX(_) | Inst::INY(_) | Inst::TAX(_)
        | Inst::TAY(_) | Inst::TXA(_) | Inst::TYA(_) | Inst::TSX(_) | Inst::TXS(_) | Inst::NOP(_) => true,
        _ => false,
    }
}

/// Executes an instruction that needs neither operand nor bus.
pub fn implied(inst: Inst, r: Registers) -> (out: Registers)
    ensures
        out == implied_result(inst, r),
{
    match inst {
        Inst::CLC(_) => Registers { p: ProcFlags { c: false, ..r.p }, ..r },
        Inst::CLD(_) => Registers { p: ProcFlags { d: false, ..r.p }, ..r },
        Inst::CLI(_) => Registers { p: ProcFlags { i: false, ..r.p }, ..r },
        Inst::CLV(_) => Registers { p: ProcFlags { v: false, ..r.p }, ..r },
        Inst::SEC(_) => Registers { p: ProcFlags { c: true, ..r.p }, ..r },
        Inst::SED(_) => Registers { p: ProcFlags { d: true, ..r.p }, ..r },
        Inst::SEI(_) => Registers { p: ProcFlags { i: true, ..r.p }, ..r },
        Inst::DEX(_) => load_reg(r, InstrReg::X, ((r.x as u16 + 255) % 256) as u8),
        Inst::DEY(_) => load_reg(r, InstrReg::Y, ((r.y as u16 + 255) % 256) as u8),
        Inst::INX(_) => load_reg(r, InstrReg::X, ((r.x as u16 + 1) % 256) as u8),
        Inst::INY(_) => load_reg(r, InstrReg::Y, ((r.y as u16 + 1) % 256) as u8),
        Inst::TAX(_) => load_reg(r, InstrReg::X, r.a),
        Inst::TAY(_) => load_reg(r, InstrReg::Y, r.a),
        Inst::TXA(_) => load_reg(r, InstrReg::A, r.x),
        Inst::TYA(_) => load_reg(r, InstrReg::A, r.y),
        Inst::TSX(_) => load_reg(r, InstrReg::X, r.sp),
        Inst::TXS(_) => Registers { sp: r.x, ..r },
        _ => r,
    }
}

/// Whether the instruction's addressing mode is one it supports.
pub open spec fn mode_ok(inst: Inst) -> bool {
    match inst {
        Inst::ADC(am) | Inst::SBC(am) | Inst::AND(am) | Inst::EOR(am) | Inst::ORA(am) | Inst::CMP(am)
        | Inst::CPX(am) | Inst::CPY(am) | Inst::BIT(am) | Inst::LDA(am) | Inst::LDX(am) | Inst::LDY(
            am,
        ) => CPU::is_read_mode(am),
        Inst::STA(am) | Inst::STX(am) | Inst::STY(am) => CPU::is_write_mode(am),
        Inst::ASL(am) | Inst::LSR(am) | Inst::ROL(am) | Inst::ROR(am) => am is Acc || am is ZP
            || am is Abs,
        Inst::INC(am) | Inst::DEC(am) => am is ZP || am is Abs,
        Inst::JMP(am) => am == AddrMode::Abs(IndexRegister::N) || am == AddrMode::Ind(IndexRegister::N),
        _ => true,
    }
}

/// `n` is `o` after executing `inst` (its opcode already fetched).
#[verifier::opaque]
pub open spec fn exec_post(o: &CPU, n: &CPU, inst: Inst) -> bool {
    match inst {
        Inst::ADC(am) | Inst::SBC(am) | Inst::AND(am) | Inst::EOR(am) | Inst::ORA(am) | Inst::CMP(am)
        | Inst::CPX(am) | Inst::CPY(am) | Inst::BIT(am) | Inst::LDA(am) | Inst::LDX(am) | Inst::LDY(
            am,
        ) => read_post(o, n, inst, am),
        Inst::STA(am) => store_post(o, n, am, o.reg.a),
        Inst::STX(am) => store_post(o, n, am, o.reg.x),
        Inst::STY(am) => store_post(o, n, am, o.reg.y),
        Inst::ASL(am) => rmw_post(o, n, am, RmwOp::Asl),
        Inst::LSR(am) => rmw_post(o, n, am, RmwOp::Lsr),
        Inst::ROL(am) => rmw_post(o, n, am, RmwOp::Rol),
        Inst::ROR(am) => rmw_post(o, n, am, RmwOp::Ror),
        Inst::INC(am) => rmw_post(o, n, am, RmwOp::Inc),
        Inst::DEC(am) => rmw_post(o, n, am, RmwOp::Dec),
        Inst::BCC(_) | Inst::BCS(_) | Inst::BEQ(_) | Inst::BMI(_) | Inst::BNE(_) | Inst::BPL(_)
        | Inst::BVC(_) | Inst::BVS(_) => branch_post(o, n, branch_taken(inst, o.reg.p)),
        Inst::JMP(am) => jmp_post(o, n, am),
        Inst::JSR(_) => jsr_post(o, n),
        Inst::RTS(_) => rts_post(o, n, false),
        Inst::RTI(_) => rts_post(o, n, true),
        Inst::BRK(_) => brk_post(o, n),
        Inst::PHA(_) => push_post(o, n, o.reg.a),
        Inst::PHP(_) => push_post(o, n, o.reg.p.spec_byte() as u8),
        Inst::PLA(_) => pull_post(o, n, false),
        Inst::PLP(_) => pull_post(o, n, true),
        Inst::ILL(_) => *n == *o,
        _ => CPU::kept(o, n) && n.cycles == o.cycles && n.reg == implied_result(inst, o.reg),
    }
}

impl Inst {
    /// Executes the instruction on `cpu`, whose program counter is past the
    /// opcode. An opcode with no instruction changes nothing and is reported.
    #[verifier::rlimit(100)]
    #[verifier::spinoff_prover]
    pub fn run(self, cpu: &mut CPU) -> (r: Result<(), crate::cpu::StepError>)
        requires
            old(cpu).wf(),
            old(cpu).room(7),
            mode_ok(self),
        ensures
            exec_post(&*old(cpu), &*final(cpu), self),
            final(cpu).wf(),
            final(cpu).illegal_policy == old(cpu).illegal_policy,
            CPU::clocked(&*old(cpu), &*final(cpu)),
            r is Err <==> self is ILL,
            r is Err ==> r->Err_0 is IllegalOpcode && *final(cpu) == *old(cpu),
            r matches Err(crate::cpu::StepError::IllegalOpcode { opcode, addr }) ==> self == Inst::ILL(
                opcode,
            ) && addr == wrap16(old(cpu).reg.pc - 1),
            old(cpu).cycles <= final(cpu).cycles <= old(cpu).cycles + 7,
    {
        proof {
            reveal(exec_post);
        }
        match self {
            Inst::NOP(_) => {},
            Inst::ADC(am) => adc(cpu, am, false),
            Inst::SBC(am) => adc(cpu, am, true),
            Inst::AND(am) => a_op(cpu, am, LogicOp::And),
            Inst::EOR(am) => a_op(cpu, am, LogicOp::Eor),
            Inst::ORA(am) => a_op(cpu, am, LogicOp::Ora),
            Inst::ASL(am) => rmw(cpu, am, RmwOp::Asl),
            Inst::LSR(am) => rmw(cpu, am, RmwOp::Lsr),
            Inst::ROL(am) => rmw(cpu, am, RmwOp::Rol),
            Inst::ROR(am) => rmw(cpu, am, RmwOp::Ror),
            Inst::INC(am) => rmw(cpu, am, RmwOp::Inc),
            Inst::DEC(am) => rmw(cpu, am, RmwOp::Dec),
            Inst::BIT(am) => bit(cpu, am),
            Inst::BCC(_) => branch(cpu, !cpu.reg.p.c),
            Inst::BCS(_) => branch(cpu, cpu.reg.p.c),
            Inst::BEQ(_) => branch(cpu, cpu.reg.p.z),
            Inst::BMI(_) => branch(cpu, cpu.reg.p.n),
            Inst::BNE(_) => branch(cpu, !cpu.reg.p.z),
            Inst::BPL(_) => branch(cpu, !cpu.reg.p.n),
            Inst::BVC(_) => branch(cpu, !cpu.reg.p.v),
            Inst::BVS(_) => branch(cpu, cpu.reg.p.v),
            Inst::JMP(am) => jmp(cpu, am),
            Inst::JSR(_) => jsr(cpu),
            Inst::RTS(_) => rts(cpu, false),
            Inst::RTI(_) => rts(cpu, true),
            Inst::BRK(_) => brk(cpu),
            Inst::CMP(am) => cmp(cpu, am, InstrReg::A),
            Inst::CPX(am) => cmp(cpu, am, InstrReg::X),
            Inst::CPY(am) => cmp(cpu, am, InstrReg::Y),
            Inst::LDA(am) => ld(cpu, am, InstrReg::A),
            Inst::LDX(am) => ld(cpu, am, InstrReg::X),
            Inst::LDY(am) => ld(cpu, am, InstrReg::Y),
            Inst::STA(am) => st(cpu, am, InstrReg::A),
            Inst::STX(am) => st(cpu, am, InstrReg::X),
            Inst::STY(am) => st(cpu, am, InstrReg::Y),
            Inst::PHA(_) => {
                let a = cpu.reg.a;
                cpu.push(a);
            },
            Inst::PHP(_) => {
                let p = cpu.reg.p.to_byte();
                cpu.push(p);
            },
            Inst::PLA(_) => pull_op(cpu, false),
            Inst::PLP(_) => pull_op(cpu, true),
            Inst::ILL(op) => {
                let addr = ((cpu.reg.pc as u32 + 65535) % 65536) as u16;
                return Err(crate::cpu::StepError::IllegalOpcode { opcode: op, addr });
            },
            _ => {
                cpu.reg = implied(self, cpu.reg);
            },
        }
        Ok(())
    }
}

} // verus!
