use crate::addressable::Addressable;
use crate::bus::{make_word, word};
use crate::cpu::{Cpu, Fault};
use crate::cpu_table::{decode, AddrMode, OPCODES};
use crate::isa::ticked;
use crate::mem::{Mem, MemView};
use std::collections::HashSet;
use vstd::prelude::*;
use vstd::slice::slice_subrange;

pub use crate::cpu_table::Op;

verus! {

/// How an instruction finds its operand.
pub type Mode = AddrMode;

/// `hex::FromHexError`, the error of the hexadecimal decoder. Nothing is
/// known of a value of it.
#[verifier::external_type_specification]
#[verifier::external_body]
pub struct ExFromHexError(hex::FromHexError);

/// The value of a hexadecimal digit, in either case.
pub open spec fn hex_digit(c: u8) -> Option<u8> {
    if 48 <= c <= 57 {
        Some((c - 48) as u8)
    } else if 97 <= c <= 102 {
        Some((c - 87) as u8)
    } else if 65 <= c <= 70 {
        Some((c - 55) as u8)
    } else {
        None
    }
}

/// Whether `text` is hexadecimal: an even number of hexadecimal digits.
pub open spec fn is_hex(text: Seq<u8>) -> bool {
    text.len() % 2 == 0 && forall|i: int| 0 <= i < text.len() ==> hex_digit(#[trigger] text[i]) is Some
}

/// The bytes that hexadecimal text stands for: two digits each, the high
/// one first.
pub open spec fn hex_bytes(text: Seq<u8>) -> Seq<u8> {
    Seq::new(
        text.len() / 2,
        |i: int| (16 * hex_digit(text[2 * i]).unwrap() + hex_digit(text[2 * i + 1]).unwrap()) as u8,
    )
}

/// Calls `hex::decode`. Believed, not proved: it succeeds on an even number
/// of hexadecimal digits, upper or lower case, and then returns one byte for
/// each pair of digits, the first digit of a pair being the high four bits;
/// on everything else it returns an error.
#[verifier::external_body]
fn decode_hex(text: &[u8]) -> (decoded: Result<Vec<u8>, hex::FromHexError>)
    ensures
        decoded is Ok <==> is_hex(text@),
        decoded matches Ok(bytes) ==> bytes@ == hex_bytes(text@),
{
    hex::decode(text)
}

/// An ASCII white-space character.
pub open spec fn is_space(c: u8) -> bool {
    c == 32 || 9 <= c <= 13
}

/// The first index from `i` on at which `line` has no white space.
pub open spec fn skip_spaces(line: Seq<u8>, i: int) -> int
    decreases line.len() - i,
{
    if 0 <= i < line.len() && is_space(line[i]) {
        skip_spaces(line, i + 1)
    } else {
        i
    }
}

/// The end of `line` without trailing white space, not before `lo`.
pub open spec fn skip_back(line: Seq<u8>, lo: int, j: int) -> int
    decreases j,
{
    if 0 <= lo < j <= line.len() && is_space(line[j - 1]) {
        skip_back(line, lo, j - 1)
    } else {
        j
    }
}

/// `line` without white space at its ends.
pub open spec fn trimmed(line: Seq<u8>) -> Seq<u8> {
    let start = skip_spaces(line, 0);
    line.subrange(start, skip_back(line, start, line.len() as int))
}

/// The index of the first blank in `text` from `i` on, or its length.
pub open spec fn word_end(text: Seq<u8>, i: int) -> int
    decreases text.len() - i,
{
    if 0 <= i < text.len() && text[i] != 32 {
        word_end(text, i + 1)
    } else {
        i
    }
}

/// The first word of `text`: what stands before its first blank.
pub open spec fn first_word(text: Seq<u8>) -> Seq<u8> {
    text.subrange(0, word_end(text, 0))
}

/// The second word of `text`: what stands between its first and its second
/// blank; none where the text has no blank.
pub open spec fn second_word(text: Seq<u8>) -> Option<Seq<u8>> {
    let end = word_end(text, 0);
    if end < text.len() {
        Some(text.subrange(end + 1, word_end(text, end + 1)))
    } else {
        None
    }
}

/// The address that an argument stands for: the first two bytes of its
/// hexadecimal text, the high byte first.
pub open spec fn address_of(arg: Seq<u8>) -> Option<u16> {
    if is_hex(arg) && hex_bytes(arg).len() >= 2 {
        Some(word(hex_bytes(arg)[1], hex_bytes(arg)[0]))
    } else {
        None
    }
}

/// What a line of input asks for.
#[derive(Clone, Copy, Debug, PartialEq, Eq, Structural)]
pub enum Command {
    /// `ss`: switch the display of the processor state on or off.
    ToggleState,
    /// `sd`: switch the disassembly on or off.
    ToggleDisassembly,
    /// `bp` with an address: set a breakpoint.
    Breakpoint(u16),
    /// `m` with an address: show four bytes of memory. An argument that is
    /// no hexadecimal text stands for address 0.
    Memory(u16),
    /// `r`: run until a breakpoint.
    Run,
    /// `s`: execute one tick.
    Step,
    /// Anything else.
    Nothing,
}

/// The command that `line` holds.
pub open spec fn command_of(line: Seq<u8>) -> Command {
    let text = trimmed(line);
    let name = first_word(text);
    let arg = second_word(text);
    if name == seq![115u8, 115u8] {
        Command::ToggleState
    } else if name == seq![115u8, 100u8] {
        Command::ToggleDisassembly
    } else if name == seq![98u8, 112u8] {
        match arg {
            Some(a) => match address_of(a) {
                Some(addr) => Command::Breakpoint(addr),
                None => Command::Nothing,
            },
            None => Command::Nothing,
        }
    } else if name == seq![109u8] {
        match arg {
            Some(a) => if !is_hex(a) {
                Command::Memory(0)
            } else {
                match address_of(a) {
                    Some(addr) => Command::Memory(addr),
                    None => Command::Nothing,
                }
            },
            None => Command::Nothing,
        }
    } else if name == seq![114u8] {
        Command::Run
    } else if name == seq![115u8] {
        Command::Step
    } else {
        Command::Nothing
    }
}

/// An instruction as a listing shows it: operation, addressing mode and the
/// two bytes that follow the opcode.
#[derive(Clone, Copy, Debug, PartialEq, Eq, Structural)]
pub struct Instruction {
    pub op: Op,
    pub mode: Mode,
    pub b2: u8,
    pub b3: u8,
}

/// Bytes that an instruction in addressing mode `mode` takes.
pub open spec fn instruction_length(mode: Mode) -> u8 {
    match mode {
        AddrMode::IMP | AddrMode::ZPA => 1,
        AddrMode::ABS | AddrMode::ABX | AddrMode::ABY | AddrMode::IND => 3,
        _ => 2,
    }
}

/// The instruction that the three bytes `b1`, `b2`, `b3` start with.
pub open spec fn listed(b1: u8, b2: u8, b3: u8) -> Instruction {
    Instruction { op: decode(b1).0, mode: decode(b1).1, b2, b3 }
}

/// What the debugger did with a tick.
#[derive(Clone, Copy, Debug, PartialEq, Eq)]
pub enum Reply {
    /// The processor ticked. `state` is the processor before the tick where
    /// its display is on, `listing` the instruction at its program counter
    /// where the disassembly is on.
    Ticked { state: Option<Cpu>, listing: Option<Instruction>, fault: Option<Fault> },
    /// The display of the processor state is now on or off.
    ShowState(bool),
    /// The disassembly is now on or off.
    ShowDisassembly(bool),
    /// A breakpoint was set at this address.
    BreakpointAdded(u16),
    /// The four bytes of memory from this address on.
    Memory(u16, u8, u8, u8, u8),
    /// The processor now runs until a breakpoint.
    Running,
    /// The line held no command.
    Ignored,
}

/// The debugger: what it shows, whether the processor runs freely, and
/// where it stops.
pub struct Debugger {
    show_state: bool,
    show_disassembly: bool,
    running: bool,
    breakpoints: HashSet<u16>,
}

/// The state of the debugger.
pub struct DebuggerView {
    pub show_state: bool,
    pub show_disassembly: bool,
    pub running: bool,
    pub breakpoints: Set<u16>,
}

/// Debugger, processor and memory after a tick of the debugger, and its
/// reply.
pub struct Debugged {
    pub debugger: DebuggerView,
    pub cpu: Cpu,
    pub mem: MemView,
    pub reply: Reply,
}

impl DebuggerView {
    /// The four bytes from `addr` on.
    pub open spec fn memory_reply(mem: MemView, addr: u16) -> Reply {
        Reply::Memory(
            addr,
            mem.byte(addr),
            mem.byte(addr.wrapping_add(1)),
            mem.byte(addr.wrapping_add(2)),
            mem.byte(addr.wrapping_add(3)),
        )
    }

    /// One tick of the processor under the debugger.
    pub open spec fn stepped(self, cpu: Cpu, mem: MemView) -> Debugged {
        let step = ticked::<Mem>(cpu, mem);
        Debugged {
            debugger: self,
            cpu: step.cpu,
            mem: step.bus,
            reply: Reply::Ticked {
                state: if self.show_state {
                    Some(cpu)
                } else {
                    None
                },
                listing: if self.show_disassembly {
                    Some(
                        listed(
                            mem.byte(cpu.pc),
                            mem.byte(cpu.pc.wrapping_add(1)),
                            mem.byte(cpu.pc.wrapping_add(2)),
                        ),
                    )
                } else {
                    None
                },
                fault: step.fault,
            },
        }
    }

    /// One tick of the debugger. While the processor runs, it ticks, and
    /// stops running when it reaches a breakpoint. Otherwise the command in
    /// `line` is carried out.
    pub open spec fn ticked(self, cpu: Cpu, mem: MemView, line: Seq<u8>) -> Debugged {
        if self.running {
            let s = self.stepped(cpu, mem);
            Debugged {
                debugger: DebuggerView { running: !self.breakpoints.contains(s.cpu.pc), ..self },
                ..s
            }
        } else {
            match command_of(line) {
                Command::ToggleState => Debugged {
                    debugger: DebuggerView { show_state: !self.show_state, ..self },
                    cpu,
                    mem,
                    reply: Reply::ShowState(!self.show_state),
                },
                Command::ToggleDisassembly => Debugged {
                    debugger: DebuggerView { show_disassembly: !self.show_disassembly, ..self },
                    cpu,
                    mem,
                    reply: Reply::ShowDisassembly(!self.show_disassembly),
                },
                Command::Breakpoint(addr) => Debugged {
                    debugger: DebuggerView { breakpoints: self.breakpoints.insert(addr), ..self },
                    cpu,
                    mem,
                    reply: Reply::BreakpointAdded(addr),
                },
                Command::Memory(addr) => Debugged {
                    debugger: self,
                    cpu,
                    mem,
                    reply: Self::memory_reply(mem, addr),
                },
                Command::Run => Debugged {
                    debugger: DebuggerView { running: true, ..self },
                    cpu,
                    mem,
                    reply: Reply::Running,
                },
                Command::Step => self.stepped(cpu, mem),
                Command::Nothing => Debugged { debugger: self, cpu, mem, reply: Reply::Ignored },
            }
        }
    }
}

impl View for Debugger {
    type V = DebuggerView;

    closed spec fn view(&self) -> DebuggerView {
        DebuggerView {
            show_state: self.show_state,
            show_disassembly: self.show_disassembly,
            running: self.running,
            breakpoints: self.breakpoints@,
        }
    }
}

/// The part of `line` from `start` up to the next blank.
pub fn next_word(line: &[u8], start: usize) -> (end: usize)
    requires
        start <= line@.len(),
    ensures
        end == word_end(line@, start as int),
        start <= end <= line@.len(),
{
    let mut i: usize = start;
    while i < line.len() && line[i] != 32
        invariant
            start <= i <= line@.len(),
            word_end(line@, start as int) == word_end(line@, i as int),
        decreases line@.len() - i,
    {
        i = i + 1;
    }
    i
}

/// Tells whether `c` is ASCII white space.
pub fn space(c: u8) -> (yes: bool)
    ensures
        yes == is_space(c),
{
    c == 32 || (9 <= c && c <= 13)
}

/// `line` without white space at its ends.
pub fn trim(line: &[u8]) -> (text: &[u8])
    ensures
        text@ == trimmed(line@),
{
    let mut start: usize = 0;
    while start < line.len() && space(line[start])
        invariant
            start <= line@.len(),
            skip_spaces(line@, 0) == skip_spaces(line@, start as int),
        decreases line@.len() - start,
    {
        start = start + 1;
    }
    let mut end: usize = line.len();
    while start < end && space(line[end - 1])
        invariant
            start <= end <= line@.len(),
            skip_back(line@, start as int, line@.len() as int) == skip_back(
                line@,
                start as int,
                end as int,
            ),
        decreases end,
    {
        end = end - 1;
    }
    slice_subrange(line, start, end)
}

/// Tells whether `word` is the one- or two-letter name made of `first` and
/// `second`.
pub fn names(word: &[u8], first: u8, second: Option<u8>) -> (yes: bool)
    ensures
        yes == (word@ == match second {
            Some(s) => seq![first, s],
            None => seq![first],
        }),
{
    match second {
        Some(s) => {
            let yes: bool = word.len() == 2 && word[0] == first && word[1] == s;
            assert(yes ==> word@ =~= seq![first, s]);
            assert(!yes ==> word@ != seq![first, s]) by {
                if word@ == seq![first, s] {
                    assert(seq![first, s].len() == 2);
                    assert(seq![first, s][0] == first && seq![first, s][1] == s);
                }
            }
            yes
        },
        None => {
            let yes: bool = word.len() == 1 && word[0] == first;
            assert(yes ==> word@ =~= seq![first]);
            assert(!yes ==> word@ != seq![first]) by {
                if word@ == seq![first] {
                    assert(seq![first].len() == 1);
                    assert(seq![first][0] == first);
                }
            }
            yes
        },
    }
}

/// What became of the argument of a command that takes an address.
pub enum Argument {
    /// The address it stands for.
    Address(u16),
    /// It is hexadecimal, but shorter than an address.
    Short,
    /// It is not hexadecimal.
    Malformed,
}

/// The address that the argument `arg` stands for.
pub fn parse_address(arg: &[u8]) -> (parsed: Argument)
    ensures
        match parsed {
            Argument::Address(addr) => address_of(arg@) == Some(addr),
            Argument::Short => is_hex(arg@) && address_of(arg@) is None,
            Argument::Malformed => !is_hex(arg@),
        },
{
    match decode_hex(arg) {
        Ok(bytes) => {
            if bytes.len() >= 2 {
                Argument::Address(make_word(bytes[1], bytes[0]))
            } else {
                Argument::Short
            }
        },
        Err(_) => Argument::Malformed,
    }
}

/// The command that `line` holds.
pub fn parse_command(line: &[u8]) -> (command: Command)
    ensures
        command == command_of(line@),
{
    let text = trim(line);
    let end: usize = next_word(text, 0);
    let name = slice_subrange(text, 0, end);
    if names(name, 115, Some(115)) {
        Command::ToggleState
    } else if names(name, 115, Some(100)) {
        Command::ToggleDisassembly
    } else if names(name, 98, Some(112)) || names(name, 109, None) {
        let memory: bool = names(name, 109, None);
        if end < text.len() {
            let arg_end: usize = next_word(text, end + 1);
            let arg = slice_subrange(text, end + 1, arg_end);
            match parse_address(arg) {
                Argument::Address(addr) => if memory {
                    Command::Memory(addr)
                } else {
                    Command::Breakpoint(addr)
                },
                Argument::Short => Command::Nothing,
                Argument::Malformed => if memory {
                    Command::Memory(0)
                } else {
                    Command::Nothing
                },
            }
        } else {
            Command::Nothing
        }
    } else if names(name, 114, None) {
        Command::Run
    } else if names(name, 115, None) {
        Command::Step
    } else {
        Command::Nothing
    }
}

impl Debugger {
    pub fn new() -> (debugger: Debugger)
        ensures
            debugger@ == (DebuggerView {
                show_state: false,
                show_disassembly: false,
                running: false,
                breakpoints: Set::<u16>::empty(),
            }),
    {
        Debugger {
            show_state: false,
            show_disassembly: false,
            running: false,
            breakpoints: HashSet::new(),
        }
    }

    /// Whether the processor runs freely: then a tick needs no line of
    /// input.
    pub fn is_running(&self) -> (running: bool)
        ensures
            running == self@.running,
    {
        self.running
    }

    /// The instruction that the three bytes `b1`, `b2`, `b3` start with.
    pub fn disassemble(&self, b1: u8, b2: u8, b3: u8) -> (instruction: Instruction)
        ensures
            instruction == listed(b1, b2, b3),
    {
        let (op, mode) = OPCODES[b1 as usize];
        Instruction { op, mode, b2, b3 }
    }

    /// Bytes that an instruction in addressing mode `mode` takes.
    pub fn length_of(mode: Mode) -> (length: u8)
        ensures
            length == instruction_length(mode),
    {
        match mode {
            AddrMode::IMP | AddrMode::ZPA => 1,
            AddrMode::ABS | AddrMode::ABX | AddrMode::ABY | AddrMode::IND => 3,
            _ => 2,
        }
    }

    /// One tick of the processor under the debugger.
    pub fn cpu_tick(&self, cpu: &mut Cpu, mem: &mut Mem) -> (reply: Reply)
        requires
            old(mem).inv(),
        ensures
            final(mem).inv(),
            (Debugged { debugger: self@, cpu: *final(cpu), mem: final(mem)@, reply })
                == self@.stepped(*old(cpu), old(mem)@),
    {
        let state: Option<Cpu> = if self.show_state {
            Some(*cpu)
        } else {
            None
        };
        let listing: Option<Instruction> = if self.show_disassembly {
            Some(
                self.disassemble(
                    mem.get_byte(cpu.pc),
                    mem.get_byte(cpu.pc.wrapping_add(1)),
                    mem.get_byte(cpu.pc.wrapping_add(2)),
                ),
            )
        } else {
            None
        };
        let result = cpu.tick(mem);
        Reply::Ticked {
            state,
            listing,
            fault: match result {
                Ok(_) => None,
                Err(fault) => Some(fault),
            },
        }
    }

    /// One tick of the debugger. `line` is the line of input that was read
    /// for it; it counts for nothing while the processor runs freely.
    pub fn tick(&mut self, cpu: &mut Cpu, mem: &mut Mem, line: &[u8]) -> (reply: Reply)
        requires
            old(mem).inv(),
        ensures
            final(mem).inv(),
            (Debugged { debugger: final(self)@, cpu: *final(cpu), mem: final(mem)@, reply })
                == old(self)@.ticked(*old(cpu), old(mem)@, line@),
    {
        broadcast use vstd::std_specs::hash::group_hash_axioms;

        if self.running {
            let reply = self.cpu_tick(cpu, mem);
            if self.breakpoints.contains(&cpu.pc) {
                self.running = false;
            }
            reply
        } else {
            match parse_command(line) {
                Command::ToggleState => {
                    self.show_state = !self.show_state;
                    Reply::ShowState(self.show_state)
                },
                Command::ToggleDisassembly => {
                    self.show_disassembly = !self.show_disassembly;
                    Reply::ShowDisassembly(self.show_disassembly)
                },
                Command::Breakpoint(addr) => {
                    self.breakpoints.insert(addr);
                    Reply::BreakpointAdded(addr)
                },
                Command::Memory(addr) => Reply::Memory(
                    addr,
                    mem.get_byte(addr),
                    mem.get_byte(addr.wrapping_add(1)),
                    mem.get_byte(addr.wrapping_add(2)),
                    mem.get_byte(addr.wrapping_add(3)),
                ),
                Command::Run => {
                    self.running = true;
                    Reply::Running
                },
                Command::Step => self.cpu_tick(cpu, mem),
                Command::Nothing => Reply::Ignored,
            }
        }
    }
}

} // verus!
