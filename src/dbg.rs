//! The debugger's state and decisions: a set of breakpoints, and running
//! the console until one of them is hit.

use crate::bits::{has_prefix, parse_hex, spec_parse_hex};
use crate::cart::LoadError;
use crate::cpu::{StepError, CPU, CYCLE_LIMIT, MAX_STEP_CYCLES};
use crate::fc::FC;
use vstd::prelude::*;

verus! {

/// A condition that stops a run.
#[derive(Clone, Copy, PartialEq, Eq, Structural, Debug)]
pub enum Breakpoint {
    /// The program counter reaches the address.
    Address(u16),
    /// The processor's cycle counter equals the value.
    CPUCycle(u64),
    /// The picture unit's dot equals the value.
    PPUCycle(u32),
    /// The picture unit's scanline equals the value.
    Scanline(u32),
}

/// Why a breakpoint could not be added or deleted.
#[derive(Clone, Copy, PartialEq, Eq, Structural, Debug)]
pub enum BreakpointError {
    AlreadyExists(Breakpoint),
    DoesNotExist(Breakpoint),
}

/// Breakpoints, each held once.
pub struct Breakpoints {
    pub list: Vec<Breakpoint>,
}

impl Breakpoints {
    pub open spec fn wf(&self) -> bool {
        self.list@.no_duplicates()
    }

    pub open spec fn view(&self) -> Set<Breakpoint> {
        self.list@.to_set()
    }

    pub fn new() -> (r: Breakpoints)
        ensures
            r.wf(),
            r.view() == Set::<Breakpoint>::empty(),
    {
        let r = Breakpoints { list: Vec::new() };
        proof {
            assert(r.list@.to_set() =~= Set::<Breakpoint>::empty());
        }
        r
    }

    /// The position of `b` in the list.
    fn find(&self, b: Breakpoint) -> (r: Option<usize>)
        ensures
            r matches Some(i) ==> i < self.list@.len() && self.list@[i as int] == b,
            r is None ==> !self.list@.contains(b),
    {
        let mut i: usize = 0;
        while i < self.list.len()
            invariant
                i <= self.list@.len(),
                forall|j: int| 0 <= j < i ==> self.list@[j] != b,
            decreases self.list@.len() - i,
        {
            if self.list[i] == b {
                return Some(i);
            }
            i += 1;
        }
        None
    }

    pub fn contains(&self, b: Breakpoint) -> (r: bool)
        ensures
            r == self.view().contains(b),
    {
        self.find(b).is_some()
    }

    pub fn is_empty(&self) -> (r: bool)
        requires
            self.wf(),
        ensures
            r == (self.view() == Set::<Breakpoint>::empty()),
    {
        proof {
            if self.list@.len() > 0 {
                assert(self.view().contains(self.list@[0]));
            } else {
                assert(self.view() =~= Set::<Breakpoint>::empty());
            }
        }
        self.list.len() == 0
    }

    /// Adds `b`; fails if it is already there.
    pub fn try_add_breakpoint(&mut self, b: Breakpoint) -> (r: Result<(), BreakpointError>)
        requires
            old(self).wf(),
        ensures
            final(self).wf(),
            final(self).view() == old(self).view().insert(b),
            r is Ok <==> !old(self).view().contains(b),
            r is Err ==> r == Err::<(), BreakpointError>(BreakpointError::AlreadyExists(b)),
    {
        if self.find(b).is_some() {
            proof {
                assert(self.view().insert(b) =~= self.view());
            }
            return Err(BreakpointError::AlreadyExists(b));
        }
        let ghost before = self.list@;
        self.list.push(b);
        proof {
            assert(self.list@ == before.push(b));
            assert(self.list@.no_duplicates()) by {
                assert forall|i: int, j: int|
                    0 <= i < self.list@.len() && 0 <= j < self.list@.len() && i != j implies self.list@[i]
                    != self.list@[j] by {
                    if i < before.len() && j < before.len() {
                    } else if i == before.len() {
                        assert(before.contains(self.list@[j]) || j == i);
                    } else {
                        assert(before.contains(self.list@[i]));
                    }
                }
            }
            assert forall|z: Breakpoint| self.list@.contains(z) <==> (before.contains(z) || z == b) by {
                if self.list@.contains(z) {
                    let k = choose|k: int| 0 <= k < self.list@.len() && self.list@[k] == z;
                    if k < before.len() {
                        assert(before[k] == z);
                    }
                }
                if before.contains(z) {
                    let k = choose|k: int| 0 <= k < before.len() && before[k] == z;
                    assert(self.list@[k] == z);
                }
                if z == b {
                    assert(self.list@[before.len() as int] == b);
                }
            }
            assert(self.view() =~= before.to_set().insert(b));
        }
        Ok(())
    }

    /// Deletes `b`; fails if it is not there.
    pub fn try_remove_breakpoint(&mut self, b: Breakpoint) -> (r: Result<(), BreakpointError>)
        requires
            old(self).wf(),
        ensures
            final(self).wf(),
            final(self).view() == old(self).view().remove(b),
            r is Ok <==> old(self).view().contains(b),
            r is Err ==> r == Err::<(), BreakpointError>(BreakpointError::DoesNotExist(b)),
    {
        match self.find(b) {
            None => {
                proof {
                    assert(self.view().remove(b) =~= self.view());
                }
                Err(BreakpointError::DoesNotExist(b))
            },
            Some(i) => {
                let ghost before = self.list@;
                self.list.remove(i);
                proof {
                    let after = self.list@;
                    assert(after =~= before.remove(i as int));
                    assert(after.no_duplicates()) by {
                        assert forall|x: int, y: int|
                            0 <= x < after.len() && 0 <= y < after.len() && x != y implies after[x]
                            != after[y] by {
                            let xi = if x < i { x } else { x + 1 };
                            let yi = if y < i { y } else { y + 1 };
                            assert(after[x] == before[xi] && after[y] == before[yi]);
                        }
                    }
                    assert forall|z: Breakpoint| after.contains(z) <==> before.contains(z) && z != b by {
                        if after.contains(z) {
                            let k = choose|k: int| 0 <= k < after.len() && after[k] == z;
                            let ki = if k < i { k } else { k + 1 };
                            assert(before[ki] == z);
                            assert(ki != i);
                        }
                        if before.contains(z) && z != b {
                            let k = choose|k: int| 0 <= k < before.len() && before[k] == z;
                            assert(k != i);
                            let ka = if k < i { k } else { k - 1 };
                            assert(after[ka] == z);
                        }
                    }
                    assert(self.view() =~= before.to_set().remove(b));
                }
                Ok(())
            },
        }
    }

    /// The breakpoint that the console's state hits, checked in the order
    /// address, scanline, processor cycle, picture-unit dot.
    pub fn hit(&self, pc: u16, scanline: u32, cpu_cycle: u64, ppu_cycle: u32) -> (r: Option<
        Breakpoint,
    >)
        ensures
            r == if self.view().contains(Breakpoint::Address(pc)) {
                Some(Breakpoint::Address(pc))
            } else if self.view().contains(Breakpoint::Scanline(scanline)) {
                Some(Breakpoint::Scanline(scanline))
            } else if self.view().contains(Breakpoint::CPUCycle(cpu_cycle)) {
                Some(Breakpoint::CPUCycle(cpu_cycle))
            } else if self.view().contains(Breakpoint::PPUCycle(ppu_cycle)) {
                Some(Breakpoint::PPUCycle(ppu_cycle))
            } else {
                None
            },
    {
        if self.contains(Breakpoint::Address(pc)) {
            Some(Breakpoint::Address(pc))
        } else if self.contains(Breakpoint::Scanline(scanline)) {
            Some(Breakpoint::Scanline(scanline))
        } else if self.contains(Breakpoint::CPUCycle(cpu_cycle)) {
            Some(Breakpoint::CPUCycle(cpu_cycle))
        } else if self.contains(Breakpoint::PPUCycle(ppu_cycle)) {
            Some(Breakpoint::PPUCycle(ppu_cycle))
        } else {
            None
        }
    }
}

/// Why a run stopped.
#[derive(Clone, Copy, PartialEq, Eq, Structural, Debug)]
pub enum RunStop {
    /// A breakpoint was hit.
    Break(Breakpoint),
    /// The cycle counter has no room for another step.
    ClockExhausted,
}

/// The debugger's state: the console, the last command line and the breakpoints.
pub struct Debugger {
    pub fc: FC,
    pub last_input: String,
    pub breakpoints: Breakpoints,
    pub ed_mode: bool,
}

impl Debugger {
    pub open spec fn wf(&self) -> bool {
        self.fc.wf() && self.breakpoints.wf()
    }

    pub fn new() -> (r: Debugger)
        ensures
            r.wf(),
            r.breakpoints.view() == Set::<Breakpoint>::empty(),
            r.fc.cart is None,
    {
        Debugger { fc: FC::new(), last_input: String::new(), breakpoints: Breakpoints::new(), ed_mode: false }
    }

    /// Loads an image into the console.
    pub fn load_file(&mut self, bytes: Vec<u8>) -> (r: Result<(), LoadError>)
        requires
            old(self).wf(),
        ensures
            final(self).wf(),
            final(self).breakpoints == old(self).breakpoints,
            r is Ok <==> crate::mem::image_loads(bytes@),
            r is Err ==> final(self).fc == old(self).fc,
            r is Ok ==> final(self).fc.cart is Some && final(self).fc.cart->Some_0.header
                == crate::cart::header_of(bytes@) && final(self).fc.cart->Some_0.data@
                == bytes@.subrange(16, bytes@.len() as int),
    {
        self.fc.load_rom(bytes)
    }

    /// The command line to act on: an empty line (a lone newline) repeats the
    /// previous one, any other line becomes the previous one.
    pub fn resolve_input(&mut self, input: String, empty_line: bool) -> (r: String)
        ensures
            empty_line ==> r@ == old(self).last_input@ && final(self).last_input@ == old(self).last_input@,
            !empty_line ==> r@ == input@ && final(self).last_input@ == input@,
            final(self).fc == old(self).fc,
            final(self).breakpoints == old(self).breakpoints,
            final(self).ed_mode == old(self).ed_mode,
    {
        if empty_line {
            self.last_input.clone()
        } else {
            self.last_input = input.clone();
            input
        }
    }

    /// Steps the console until a breakpoint is hit after a step, a step
    /// fails, or the cycle counter runs out of room.
    pub fn continue_until_break(&mut self) -> (r: Result<RunStop, StepError>)
        requires
            old(self).wf(),
        ensures
            final(self).wf(),
            final(self).breakpoints == old(self).breakpoints,
            final(self).fc.cpu.cycles >= old(self).fc.cpu.cycles,
            r matches Ok(RunStop::Break(b)) ==> final(self).breakpoints.view().contains(b) && b
                == final(self).breakpoints.hit_spec(
                final(self).fc.cpu.reg.pc,
                final(self).fc.cpu.ppu.scanline,
                final(self).fc.cpu.cycles,
                final(self).fc.cpu.ppu.cycle,
            ),
            r matches Ok(RunStop::ClockExhausted) ==> !final(self).fc.cpu.room(MAX_STEP_CYCLES as nat),
            r is Err ==> CPU::step_error(&final(self).fc.cpu, Err(r->Err_0)),
    {
        loop
            invariant
                self.wf(),
                self.breakpoints == old(self).breakpoints,
                self.fc.cpu.cycles >= old(self).fc.cpu.cycles,
            decreases CYCLE_LIMIT - self.fc.cpu.cycles,
        {
            if self.fc.cpu.cycles > CYCLE_LIMIT - MAX_STEP_CYCLES {
                return Ok(RunStop::ClockExhausted);
            }
            let res = self.fc.step();
            if let Err(e) = res {
                return Err(e);
            }
            let found = self.breakpoints.hit(
                self.fc.cpu.pc(),
                self.fc.cpu.ppu.scanlines(),
                self.fc.cpu.cycles(),
                self.fc.cpu.ppu.cycles(),
            );
            if let Some(b) = found {
                return Ok(RunStop::Break(b));
            }
        }
    }
}

impl Breakpoints {
    /// The breakpoint `hit` reports, as a value.
    pub open spec fn hit_spec(&self, pc: u16, scanline: u32, cpu_cycle: u64, ppu_cycle: u32) -> Breakpoint {
        if self.view().contains(Breakpoint::Address(pc)) {
            Breakpoint::Address(pc)
        } else if self.view().contains(Breakpoint::Scanline(scanline)) {
            Breakpoint::Scanline(scanline)
        } else if self.view().contains(Breakpoint::CPUCycle(cpu_cycle)) {
            Breakpoint::CPUCycle(cpu_cycle)
        } else {
            Breakpoint::PPUCycle(ppu_cycle)
        }
    }
}

/// Why the arguments of a breakpoint command could not be understood.
#[derive(Clone, Copy, PartialEq, Eq, Structural, Debug)]
pub enum BreakpointParseError {
    /// An address without a `$` or `0x` prefix.
    MissingPrefix,
    /// An address that is not a 16-bit hexadecimal number.
    BadAddress,
    /// A cycle count that is not a decimal number of the right width.
    BadCycle,
    /// A scanline that is not a 32-bit decimal number.
    BadScanline,
    /// A breakpoint kind that is none of the known words.
    UnknownKind,
}

/// The kinds of breakpoint a command can name.
#[derive(Clone, Copy, PartialEq, Eq, Structural, Debug)]
pub enum BreakKind {
    Address,
    CpuCycle,
    PpuCycle,
    Scanline,
}

/// The value of a decimal digit.
pub open spec fn dec_digit(c: char) -> Option<nat> {
    if '0' <= c && c <= '9' {
        Some((c as nat - '0' as nat) as nat)
    } else {
        None
    }
}

/// The value of a string of decimal digits, most significant first.
pub open spec fn dec_digits_value(s: Seq<char>) -> Option<nat>
    decreases s.len(),
{
    if s.len() == 0 {
        Some(0)
    } else {
        match (dec_digits_value(s.drop_last()), dec_digit(s.last())) {
            (Some(v), Some(d)) => Some(v * 10 + d),
            _ => None,
        }
    }
}

/// A 64-bit unsigned number in base 10: an optional `+`, then one or more
/// digits whose value fits in 64 bits.
pub open spec fn radix10_u64(s: Seq<char>) -> Option<u64> {
    let d = if s.len() > 0 && s[0] == '+' {
        s.drop_first()
    } else {
        s
    };
    if d.len() == 0 {
        None
    } else {
        match dec_digits_value(d) {
            Some(v) => if v <= u64::MAX {
                Some(v as u64)
            } else {
                None
            },
            None => None,
        }
    }
}

/// Relies on `<u64 as core::str::FromStr>::from_str`, which `str::parse::<u64>`
/// calls: an optional `+` and one or more decimal digits whose value fits;
/// anything else is an error.
#[verifier::external_body]
fn parse_u64(s: &str) -> (r: Option<u64>)
    ensures
        r == radix10_u64(s@),
{
    s.parse::<u64>().ok()
}

/// Relies on `<str as PartialEq>::eq`: equal exactly when the characters are.
#[verifier::external_body]
fn str_eq(a: &str, b: &str) -> (r: bool)
    ensures
        r == (a@ == b@),
{
    a == b
}

/// The kind a word names: `a`, `addr`, `address`; `c`, `cpu`, `cycle`,
/// `cpucycle`; `p`, `ppu`, `ppucycle`; `s`, `scan`, `line`, `scanline`.
pub open spec fn kind_of(w: Seq<char>) -> Option<BreakKind> {
    if w == "a"@ || w == "addr"@ || w == "address"@ {
        Some(BreakKind::Address)
    } else if w == "c"@ || w == "cpu"@ || w == "cycle"@ || w == "cpucycle"@ {
        Some(BreakKind::CpuCycle)
    } else if w == "p"@ || w == "ppu"@ || w == "ppucycle"@ {
        Some(BreakKind::PpuCycle)
    } else if w == "s"@ || w == "scan"@ || w == "line"@ || w == "scanline"@ {
        Some(BreakKind::Scanline)
    } else {
        None
    }
}

/// The breakpoint that a kind word and a value name.
pub open spec fn spec_parse_breakpoint(kind: Seq<char>, val: Seq<char>) -> Result<Breakpoint, BreakpointParseError> {
    match kind_of(kind) {
        Some(BreakKind::Address) => if !has_prefix(val, seq!['$']) && !has_prefix(val, seq!['0', 'x']) {
            Err(BreakpointParseError::MissingPrefix)
        } else {
            match spec_parse_hex(val) {
                Ok(a) => Ok(Breakpoint::Address(a)),
                Err(_) => Err(BreakpointParseError::BadAddress),
            }
        },
        Some(BreakKind::CpuCycle) => match radix10_u64(val) {
            Some(c) => Ok(Breakpoint::CPUCycle(c)),
            None => Err(BreakpointParseError::BadCycle),
        },
        Some(BreakKind::PpuCycle) => match radix10_u64(val) {
            Some(c) => if c <= u32::MAX {
                Ok(Breakpoint::PPUCycle(c as u32))
            } else {
                Err(BreakpointParseError::BadCycle)
            },
            None => Err(BreakpointParseError::BadCycle),
        },
        Some(BreakKind::Scanline) => match radix10_u64(val) {
            Some(c) => if c <= u32::MAX {
                Ok(Breakpoint::Scanline(c as u32))
            } else {
                Err(BreakpointParseError::BadScanline)
            },
            None => Err(BreakpointParseError::BadScanline),
        },
        None => Err(BreakpointParseError::UnknownKind),
    }
}

fn kind_word(w: &str) -> (r: Option<BreakKind>)
    ensures
        r == kind_of(w@),
{
    if str_eq(w, "a") || str_eq(w, "addr") || str_eq(w, "address") {
        Some(BreakKind::Address)
    } else if str_eq(w, "c") || str_eq(w, "cpu") || str_eq(w, "cycle") || str_eq(w, "cpucycle") {
        Some(BreakKind::CpuCycle)
    } else if str_eq(w, "p") || str_eq(w, "ppu") || str_eq(w, "ppucycle") {
        Some(BreakKind::PpuCycle)
    } else if str_eq(w, "s") || str_eq(w, "scan") || str_eq(w, "line") || str_eq(w, "scanline") {
        Some(BreakKind::Scanline)
    } else {
        None
    }
}

/// Reads the arguments of a breakpoint command: a kind word and a value (a
/// prefixed hexadecimal address, or a decimal count).
pub fn parse_breakpoint(kind: &str, val: &str) -> (r: Result<Breakpoint, BreakpointParseError>)
    ensures
        r == spec_parse_breakpoint(kind@, val@),
{
    proof {
        reveal_strlit("$");
        reveal_strlit("0x");
        assert("$"@ =~= seq!['$']);
        assert("0x"@ =~= seq!['0', 'x']);
    }
    match kind_word(kind) {
        Some(BreakKind::Address) => {
            if !crate::bits::starts_with(val, "$") && !crate::bits::starts_with(val, "0x") {
                Err(BreakpointParseError::MissingPrefix)
            } else {
                match parse_hex(val) {
                    Ok(a) => Ok(Breakpoint::Address(a)),
                    Err(_) => Err(BreakpointParseError::BadAddress),
                }
            }
        },
        Some(BreakKind::CpuCycle) => match parse_u64(val) {
            Some(c) => Ok(Breakpoint::CPUCycle(c)),
            None => Err(BreakpointParseError::BadCycle),
        },
        Some(BreakKind::PpuCycle) => match parse_u64(val) {
            Some(c) => if c <= u32::MAX as u64 {
                Ok(Breakpoint::PPUCycle(c as u32))
            } else {
                Err(BreakpointParseError::BadCycle)
            },
            None => Err(BreakpointParseError::BadCycle),
        },
        Some(BreakKind::Scanline) => match parse_u64(val) {
            Some(c) => if c <= u32::MAX as u64 {
                Ok(Breakpoint::Scanline(c as u32))
            } else {
                Err(BreakpointParseError::BadScanline)
            },
            None => Err(BreakpointParseError::BadScanline),
        },
        None => Err(BreakpointParseError::UnknownKind),
    }
}

} // verus!
