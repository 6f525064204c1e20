use crate::addressable::Addressable;
use crate::bus::{make_word, word};
use crate::cpu::{Cpu, Fault};
use crate::isa::ticked;
use crate::mem::{zero_plane, Mem, MemError, MemView};
use vstd::prelude::*;

verus! {

/// Where a validation program starts.
pub const START_PC: u16 = 0x0400;

/// Where a validation program ends up when every test has passed.
pub const SUCCESS_PC: u16 = 0x3469;

/// The opcode of an absolute jump.
pub const JMP_ABSOLUTE: u8 = 0x4C;

/// Bytes before the program counter that a disassembly window starts.
pub const WINDOW_BEFORE: u16 = 10;

/// Bytes after the program counter that a disassembly window ends.
pub const WINDOW_AFTER: u16 = 6;

/// How a run ended.
#[derive(Clone, Copy, Debug, PartialEq, Eq, Structural)]
pub enum Outcome {
    /// The program reached its success address.
    Passed,
    /// The program jumps to itself at this address: a test failed.
    Trapped(u16),
    /// The processor stopped with a fault.
    Faulted(Fault),
    /// The cycles that the run was given are used up.
    Running,
}

/// A processor on 64 KiB of RAM, for programs that test the processor.
pub struct FunctionalTest {
    cpu: Cpu,
    mem: Mem,
    cycle_count: u64,
}

/// The state of the test machine.
pub struct FunctionalTestView {
    pub cpu: Cpu,
    pub mem: MemView,
    pub cycle_count: u64,
}

/// Where a run got to: processor and memory, how it ended, and how many
/// ticks it took.
pub struct Run {
    pub cpu: Cpu,
    pub mem: MemView,
    pub outcome: Outcome,
    pub ticks: nat,
}

/// The program has passed: the processor is about to fetch at the success
/// address.
pub open spec fn passed(cpu: Cpu) -> bool {
    cpu.pc == SUCCESS_PC && cpu.cycles_remaining == 0
}

/// The program is trapped: at the program counter stands an absolute jump
/// to itself, anywhere but at the success address.
pub open spec fn trapped(cpu: Cpu, mem: MemView) -> bool {
    &&& cpu.pc != SUCCESS_PC
    &&& mem.byte(cpu.pc) == JMP_ABSOLUTE
    &&& word(mem.byte(cpu.pc.wrapping_add(1)), mem.byte(cpu.pc.wrapping_add(2))) == cpu.pc
}

/// A run of at most `budget` ticks. Before each tick the run ends if the
/// program has passed or is trapped; a fault of the processor ends it too.
pub open spec fn run_from(cpu: Cpu, mem: MemView, budget: nat) -> Run
    decreases budget,
{
    if passed(cpu) {
        Run { cpu, mem, outcome: Outcome::Passed, ticks: 0 }
    } else if trapped(cpu, mem) {
        Run { cpu, mem, outcome: Outcome::Trapped(cpu.pc), ticks: 0 }
    } else if budget == 0 {
        Run { cpu, mem, outcome: Outcome::Running, ticks: 0 }
    } else {
        let step = ticked::<Mem>(cpu, mem);
        match step.fault {
            Some(fault) => Run {
                cpu: step.cpu,
                mem: step.bus,
                outcome: Outcome::Faulted(fault),
                ticks: 0,
            },
            None => {
                let rest = run_from(step.cpu, step.bus, (budget - 1) as nat);
                Run { ticks: rest.ticks + 1, ..rest }
            },
        }
    }
}

/// The first and the last address of the disassembly window round `pc`: it
/// reaches from ten bytes before to six bytes after, as far as the address
/// space goes.
pub open spec fn window_bounds(pc: u16) -> (u16, u16) {
    (
        if pc >= WINDOW_BEFORE {
            (pc - WINDOW_BEFORE) as u16
        } else {
            0
        },
        if pc + WINDOW_AFTER <= 0xFFFF {
            (pc + WINDOW_AFTER) as u16
        } else {
            0xFFFF
        },
    )
}

/// One row of a disassembly window: an address and the three bytes from it
/// on, the second and third address wrapping round the end of the address
/// space.
pub open spec fn window_row(mem: MemView, addr: u16) -> (u16, u8, u8, u8) {
    (addr, mem.byte(addr), mem.byte(addr.wrapping_add(1)), mem.byte(addr.wrapping_add(2)))
}

impl View for FunctionalTest {
    type V = FunctionalTestView;

    closed spec fn view(&self) -> FunctionalTestView {
        FunctionalTestView { cpu: self.cpu, mem: self.mem@, cycle_count: self.cycle_count }
    }
}

impl FunctionalTest {
    pub closed spec fn inv(&self) -> bool {
        self.mem.inv()
    }

    /// A test machine with `image` as its memory, about to start the program
    /// at 0x0400. The image has to fill the address space.
    pub fn new(image: &[u8]) -> (made: Result<FunctionalTest, MemError>)
        ensures
            made is Ok <==> image@.len() == 0x10000,
            made matches Err(e) ==> e == MemError::ImageSize,
            made matches Ok(test) ==> {
                &&& test.inv()
                &&& test@.cpu == (Cpu { pc: START_PC, ..Cpu::power_on() })
                &&& test@.mem.ram == image@
                &&& test@.mem.rom == zero_plane()
                &&& test@.mem.split == 0
                &&& test@.cycle_count == 0
            },
    {
        match Mem::new(0, true, image) {
            Ok(mem) => {
                let mut cpu = Cpu::new();
                cpu.pc = START_PC;
                Ok(FunctionalTest { cpu, mem, cycle_count: 0 })
            },
            Err(e) => Err(e),
        }
    }

    pub fn cpu(&self) -> (cpu: &Cpu)
        ensures
            *cpu == self@.cpu,
    {
        &self.cpu
    }

    pub fn mem(&self) -> (mem: &Mem)
        ensures
            mem@ == self@.mem,
            self.inv() ==> mem.inv(),
    {
        &self.mem
    }

    /// Ticks since the machine was made.
    pub fn cycle_count(&self) -> (count: u64)
        ensures
            count == self@.cycle_count,
    {
        self.cycle_count
    }

    /// Whether the program has passed.
    pub fn has_passed(&self) -> (yes: bool)
        ensures
            yes == passed(self@.cpu),
    {
        self.cpu.pc == SUCCESS_PC && self.cpu.cycles_remaining == 0
    }

    /// Whether the program is trapped in a jump to itself.
    pub fn is_trap(&self) -> (yes: bool)
        requires
            self.inv(),
        ensures
            yes == trapped(self@.cpu, self@.mem),
    {
        let pc: u16 = self.cpu.pc;
        if pc == SUCCESS_PC {
            return false;
        }
        let opcode: u8 = self.mem.get_byte(pc);
        if opcode == JMP_ABSOLUTE {
            let target_lo: u8 = self.mem.get_byte(pc.wrapping_add(1));
            let target_hi: u8 = self.mem.get_byte(pc.wrapping_add(2));
            make_word(target_lo, target_hi) == pc
        } else {
            false
        }
    }

    /// Runs the program for at most `max_cycles` ticks.
    pub fn run(&mut self, max_cycles: u64) -> (outcome: Outcome)
        requires
            old(self).inv(),
        ensures
            final(self).inv(),
            ({
                let run = run_from(old(self)@.cpu, old(self)@.mem, max_cycles as nat);
                &&& outcome == run.outcome
                &&& final(self)@.cpu == run.cpu
                &&& final(self)@.mem == run.mem
                &&& final(self)@.cycle_count == (old(self)@.cycle_count + run.ticks) % 0x1_0000_0000_0000_0000
                &&& run.ticks <= max_cycles
            }),
    {
        let ghost start = self@;
        let mut remaining: u64 = max_cycles;
        let ghost mut done: nat = 0;
        proof {
            lemma_run_bound(self@.cpu, self@.mem, remaining as nat);
        }
        loop
            invariant
                self.inv(),
                start == old(self)@,
                done + remaining == max_cycles,
                self@.cycle_count == (start.cycle_count + done) % 0x1_0000_0000_0000_0000,
                ({
                    let whole = run_from(start.cpu, start.mem, max_cycles as nat);
                    let rest = run_from(self@.cpu, self@.mem, remaining as nat);
                    &&& whole.outcome == rest.outcome
                    &&& whole.cpu == rest.cpu
                    &&& whole.mem == rest.mem
                    &&& whole.ticks == rest.ticks + done
                    &&& rest.ticks <= remaining
                }),
            decreases remaining,
        {
            proof {
                lemma_run_bound(self@.cpu, self@.mem, remaining as nat);
            }
            if self.has_passed() {
                return Outcome::Passed;
            }
            if self.is_trap() {
                return Outcome::Trapped(self.cpu.pc);
            }
            if remaining == 0 {
                return Outcome::Running;
            }
            match self.cpu.tick(&mut self.mem) {
                Ok(_) => {},
                Err(fault) => {
                    return Outcome::Faulted(fault);
                },
            }
            proof {
                lemma_run_bound(self@.cpu, self@.mem, (remaining - 1) as nat);
                done = done + 1;
            }
            self.cycle_count = self.cycle_count.wrapping_add(1);
            remaining = remaining - 1;
        }
    }

    /// The rows of the disassembly window round `pc`.
    pub fn disassembly_window(&self, pc: u16) -> (rows: Vec<(u16, u8, u8, u8)>)
        requires
            self.inv(),
        ensures
            rows@.len() == window_bounds(pc).1 - window_bounds(pc).0 + 1,
            forall|i: int|
                0 <= i < rows@.len() ==> #[trigger] rows@[i] == window_row(
                    self@.mem,
                    (window_bounds(pc).0 + i) as u16,
                ),
    {
        let first: u16 = pc.saturating_sub(WINDOW_BEFORE);
        let last: u16 = pc.saturating_add(WINDOW_AFTER);
        let mut rows: Vec<(u16, u8, u8, u8)> = Vec::new();
        let mut addr: u16 = first;
        loop
            invariant_except_break
                rows@.len() == addr - first,
                forall|i: int|
                    0 <= i < rows@.len() ==> #[trigger] rows@[i] == window_row(
                        self@.mem,
                        (first + i) as u16,
                    ),
            invariant
                self.inv(),
                first == window_bounds(pc).0,
                last == window_bounds(pc).1,
                first <= addr <= last,
            ensures
                addr == last,
                rows@.len() == last - first + 1,
                forall|i: int|
                    0 <= i < rows@.len() ==> #[trigger] rows@[i] == window_row(
                        self@.mem,
                        (first + i) as u16,
                    ),
            decreases last - addr,
        {
            let opcode: u8 = self.mem.get_byte(addr);
            let byte1: u8 = self.mem.get_byte(addr.wrapping_add(1));
            let byte2: u8 = self.mem.get_byte(addr.wrapping_add(2));
            rows.push((addr, opcode, byte1, byte2));
            if addr == last {
                break ;
            }
            addr = addr + 1;
        }
        rows
    }
}

/// A run takes no more ticks than it was given.
pub proof fn lemma_run_bound(cpu: Cpu, mem: MemView, budget: nat)
    ensures
        run_from(cpu, mem, budget).ticks <= budget,
    decreases budget,
{
    if !passed(cpu) && !trapped(cpu, mem) && budget > 0 {
        let step = ticked::<Mem>(cpu, mem);
        if step.fault is None {
            lemma_run_bound(step.cpu, step.bus, (budget - 1) as nat);
        }
    }
}

/// A run that ends as passed has the processor at the success address, and
/// one that ends as trapped has it at a jump to itself.
pub proof fn lemma_run_outcome(cpu: Cpu, mem: MemView, budget: nat)
    ensures
        run_from(cpu, mem, budget).outcome == Outcome::Passed ==> passed(
            run_from(cpu, mem, budget).cpu,
        ),
        run_from(cpu, mem, budget).outcome matches Outcome::Trapped(pc) ==> trapped(
            run_from(cpu, mem, budget).cpu,
            run_from(cpu, mem, budget).mem,
        ) && pc == run_from(cpu, mem, budget).cpu.pc,
    decreases budget,
{
    if !passed(cpu) && !trapped(cpu, mem) && budget > 0 {
        let step = ticked::<Mem>(cpu, mem);
        if step.fault is None {
            lemma_run_outcome(step.cpu, step.bus, (budget - 1) as nat);
        }
    }
}

} // verus!
