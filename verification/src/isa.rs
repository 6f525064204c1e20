// The instruction set as mathematics: what each instruction makes of
// processor and bus. The executable processor is proved against this.
use crate::alu::{
    add_with_carry, decrement, difference, increment, pack_status, rotate_left, rotate_right,
    shift_left, shift_right, signed, sub_with_borrow, unpack_status, Flags,
};
use crate::bus::{high_byte, low_byte, word, word_read, Bus};
use crate::cpu::{Cpu, Fault};
use crate::cpu_table::{base_cycles, decode, AddrMode, Op};
use vstd::prelude::*;

verus! {

/// Where the processor finds its non-maskable interrupt handler.
pub const NMI_VECTOR: u16 = 0xFFFA;

/// Where the processor finds its start address.
pub const RESET_VECTOR: u16 = 0xFFFC;

/// Where the processor finds its interrupt-request and break handler.
pub const IRQ_VECTOR: u16 = 0xFFFE;

/// The first address of the stack page.
pub const STACK_BASE: u16 = 0x0100;

/// Cycles that an interrupt entry takes.
pub const INTERRUPT_CYCLES: u8 = 7;

/// Processor and bus after a piece of work, and the fault that stopped it, if
/// any. Once a fault is there, nothing further happens.
pub struct Step<M> {
    pub cpu: Cpu,
    pub bus: M,
    pub fault: Option<Fault>,
}

/// An operand address, whether it lies in another page than the address it
/// was computed from, and processor and bus after the operand was fetched.
pub struct Operand<M> {
    pub addr: u16,
    pub crossed: bool,
    pub cpu: Cpu,
    pub bus: M,
}

/// A byte that was read, and processor and bus after the read.
pub struct Loaded<M> {
    pub val: u8,
    pub cpu: Cpu,
    pub bus: M,
}

/// Whether `addr`, `cpu` and `bus` are what `o` holds.
pub open spec fn resolves<M>(addr: u16, cpu: Cpu, bus: M, o: Operand<M>) -> bool {
    addr == o.addr && cpu == o.cpu && bus == o.bus
}

/// A step that ended without a fault.
pub open spec fn done<M>(cpu: Cpu, bus: M) -> Step<M> {
    Step { cpu, bus, fault: None }
}

/// A step that a fault ended.
pub open spec fn failed<M>(cpu: Cpu, bus: M, fault: Fault) -> Step<M> {
    Step { cpu, bus, fault: Some(fault) }
}

/// The step that an executable function's result stands for.
pub open spec fn step_of<M>(cpu: Cpu, bus: M, result: Result<(), Fault>) -> Step<M> {
    Step {
        cpu,
        bus,
        fault: match result {
            Ok(_) => None,
            Err(fault) => Some(fault),
        },
    }
}

/// The six flags of `cpu`.
pub open spec fn flags_of(cpu: Cpu) -> Flags {
    Flags { n: cpu.n, v: cpu.v, d: cpu.d, i: cpu.i, z: cpu.z, c: cpu.c }
}

/// `cpu` with its six flags replaced.
pub open spec fn with_flags(cpu: Cpu, f: Flags) -> Cpu {
    Cpu { n: f.n, v: f.v, d: f.d, i: f.i, z: f.z, c: f.c, ..cpu }
}

/// `cpu` with N and Z set from `val`: N is its bit 7, Z says that it is zero.
pub open spec fn with_nz(cpu: Cpu, val: u8) -> Cpu {
    Cpu { n: val >= 128, z: val == 0, ..cpu }
}

/// `cpu` charged `extra` more cycles.
pub open spec fn with_penalty(cpu: Cpu, extra: u8) -> Cpu {
    Cpu { cycles_remaining: cpu.cycles_remaining.wrapping_add(extra), ..cpu }
}

/// Whether `a` and `b` lie in different 256-byte pages.
pub open spec fn pages_differ(a: u16, b: u16) -> bool {
    a / 256 != b / 256
}

/// The byte at the program counter, which then moves past it.
pub open spec fn fetched<B: Bus>(cpu: Cpu, m: B::Model) -> Loaded<B::Model> {
    Loaded {
        val: B::peek(m, cpu.pc),
        cpu: Cpu { pc: cpu.pc.wrapping_add(1), ..cpu },
        bus: B::after_read(m, cpu.pc),
    }
}

/// The little-endian word at the program counter, which then moves past it.
pub open spec fn fetched_word<B: Bus>(cpu: Cpu, m: B::Model) -> Operand<B::Model> {
    let lo = fetched::<B>(cpu, m);
    let hi = fetched::<B>(lo.cpu, lo.bus);
    Operand { addr: word(lo.val, hi.val), crossed: false, cpu: hi.cpu, bus: hi.bus }
}

/// Zero page, plain or indexed: the sum wraps within page 0.
pub open spec fn zero_page<B: Bus>(cpu: Cpu, m: B::Model, index: u8) -> Operand<B::Model> {
    let base = fetched::<B>(cpu, m);
    Operand { addr: base.val.wrapping_add(index) as u16, crossed: false, cpu: base.cpu, bus: base.bus }
}

/// Absolute, plain or indexed.
pub open spec fn absolute<B: Bus>(cpu: Cpu, m: B::Model, index: u8) -> Operand<B::Model> {
    let base = fetched_word::<B>(cpu, m);
    let addr = base.addr.wrapping_add(index as u16);
    Operand { addr, crossed: pages_differ(base.addr, addr), cpu: base.cpu, bus: base.bus }
}

/// The address that follows `addr` within the same page: the last byte of a
/// page is followed by its first.
pub open spec fn next_in_page(addr: u16) -> u16 {
    (addr / 256 * 256 + (addr + 1) % 256) as u16
}

/// Indirect, for jumps: the pointer's high byte is read from the pointer's
/// own page even where the pointer is the last byte of its page.
pub open spec fn indirect<B: Bus>(cpu: Cpu, m: B::Model) -> Operand<B::Model> {
    let pointer = fetched_word::<B>(cpu, m);
    let target = word_read::<B>(pointer.bus, pointer.addr, next_in_page(pointer.addr));
    Operand { addr: target.0, crossed: false, cpu: pointer.cpu, bus: target.1 }
}

/// Indexed indirect: X is added to the operand within page 0, and the address
/// is the word found there, its high byte within page 0 too.
pub open spec fn indexed_indirect<B: Bus>(cpu: Cpu, m: B::Model) -> Operand<B::Model> {
    let base = fetched::<B>(cpu, m);
    let pointer = base.val.wrapping_add(cpu.x);
    let target = word_read::<B>(base.bus, pointer as u16, pointer.wrapping_add(1) as u16);
    Operand { addr: target.0, crossed: false, cpu: base.cpu, bus: target.1 }
}

/// Indirect indexed: the word found in page 0 at the operand, plus Y.
pub open spec fn indirect_indexed<B: Bus>(cpu: Cpu, m: B::Model) -> Operand<B::Model> {
    let base = fetched::<B>(cpu, m);
    let target = word_read::<B>(base.bus, base.val as u16, base.val.wrapping_add(1) as u16);
    let addr = target.0.wrapping_add(cpu.y as u16);
    Operand { addr, crossed: pages_differ(target.0, addr), cpu: base.cpu, bus: target.1 }
}

/// Relative: the operand is a signed offset from the address that follows it.
pub open spec fn relative<B: Bus>(cpu: Cpu, m: B::Model) -> Operand<B::Model> {
    let offset = fetched::<B>(cpu, m);
    let addr = ((offset.cpu.pc + signed(offset.val)) % 0x10000) as u16;
    Operand { addr, crossed: pages_differ(offset.cpu.pc, addr), cpu: offset.cpu, bus: offset.bus }
}

/// The operand of an instruction in addressing mode `mode`. An immediate
/// operand's address is that of the byte after the opcode; an instruction
/// without operand fetches nothing.
pub open spec fn operand<B: Bus>(mode: AddrMode, cpu: Cpu, m: B::Model) -> Operand<B::Model> {
    match mode {
        AddrMode::IMM => Operand {
            addr: cpu.pc,
            crossed: false,
            cpu: Cpu { pc: cpu.pc.wrapping_add(1), ..cpu },
            bus: m,
        },
        AddrMode::ZP => zero_page::<B>(cpu, m, 0),
        AddrMode::ZPX => zero_page::<B>(cpu, m, cpu.x),
        AddrMode::ZPY => zero_page::<B>(cpu, m, cpu.y),
        AddrMode::ABS => absolute::<B>(cpu, m, 0),
        AddrMode::ABX => absolute::<B>(cpu, m, cpu.x),
        AddrMode::ABY => absolute::<B>(cpu, m, cpu.y),
        AddrMode::IND => indirect::<B>(cpu, m),
        AddrMode::IZX => indexed_indirect::<B>(cpu, m),
        AddrMode::IZY => indirect_indexed::<B>(cpu, m),
        AddrMode::REL => relative::<B>(cpu, m),
        AddrMode::IMP | AddrMode::ZPA => Operand { addr: 0, crossed: false, cpu, bus: m },
    }
}

/// The operand's byte, read. A page crossing costs a reading instruction one
/// more cycle.
pub open spec fn load<B: Bus>(mode: AddrMode, cpu: Cpu, m: B::Model) -> Loaded<B::Model> {
    let o = operand::<B>(mode, cpu, m);
    Loaded {
        val: B::peek(o.bus, o.addr),
        cpu: if o.crossed {
            with_penalty(o.cpu, 1)
        } else {
            o.cpu
        },
        bus: B::after_read(o.bus, o.addr),
    }
}

/// Writing `val` at `addr`, which is a fault where the bus does not accept it.
pub open spec fn store<B: Bus>(cpu: Cpu, m: B::Model, addr: u16, val: u8) -> Step<B::Model> {
    if B::accepts(m, addr) {
        done(cpu, B::after_write(m, addr, val))
    } else {
        failed(cpu, m, Fault::WriteProtected(addr))
    }
}

/// The stack slot that stack pointer `s` names.
pub open spec fn stack_addr(s: u8) -> u16 {
    (STACK_BASE + s) as u16
}

/// Pushing `val`: it is written at the stack pointer, which then moves down.
pub open spec fn push<B: Bus>(cpu: Cpu, m: B::Model, val: u8) -> Step<B::Model> {
    let written = store::<B>(cpu, m, stack_addr(cpu.s), val);
    if written.fault is Some {
        written
    } else {
        done(Cpu { s: cpu.s.wrapping_sub(1), ..cpu }, written.bus)
    }
}

/// Pushing `val` after `before`, unless that already failed.
pub open spec fn push_next<B: Bus>(before: Step<B::Model>, val: u8) -> Step<B::Model> {
    if before.fault is Some {
        before
    } else {
        push::<B>(before.cpu, before.bus, val)
    }
}

/// Pushing a word: high byte first.
pub open spec fn push_word<B: Bus>(cpu: Cpu, m: B::Model, val: u16) -> Step<B::Model> {
    push_next::<B>(push::<B>(cpu, m, high_byte(val)), low_byte(val))
}

/// Pulling a byte: the stack pointer moves up, and the byte it then names is
/// read.
pub open spec fn pull<B: Bus>(cpu: Cpu, m: B::Model) -> Loaded<B::Model> {
    let s = cpu.s.wrapping_add(1);
    Loaded {
        val: B::peek(m, stack_addr(s)),
        cpu: Cpu { s, ..cpu },
        bus: B::after_read(m, stack_addr(s)),
    }
}

/// Pulling a word: low byte first.
pub open spec fn pull_word<B: Bus>(cpu: Cpu, m: B::Model) -> Operand<B::Model> {
    let lo = pull::<B>(cpu, m);
    let hi = pull::<B>(lo.cpu, lo.bus);
    Operand { addr: word(lo.val, hi.val), crossed: false, cpu: hi.cpu, bus: hi.bus }
}

/// Entering an interrupt handler: the return address and the status byte are
/// pushed, the interrupt-disable flag is set, and execution continues at the
/// address that `vector` holds. `b` is the break bit of the pushed status.
pub open spec fn interrupt<B: Bus>(cpu: Cpu, m: B::Model, vector: u16, b: bool, return_pc: u16) -> Step<
    B::Model,
> {
    let pushed = push_next::<B>(push_word::<B>(cpu, m, return_pc), pack_status(flags_of(cpu), b));
    if pushed.fault is Some {
        pushed
    } else {
        let target = word_read::<B>(pushed.bus, vector, vector.wrapping_add(1));
        done(Cpu { pc: target.0, i: true, ..pushed.cpu }, target.1)
    }
}

/// What a comparison of `reg` with `val` does to the flags.
pub open spec fn compared(cpu: Cpu, reg: u8, val: u8) -> Cpu {
    let d = difference(reg, val);
    with_nz(Cpu { c: d.carry, ..cpu }, d.val)
}

/// What an operation that reads its operand does to the processor, given the
/// byte `val` that it read.
pub open spec fn applied(op: Op, cpu: Cpu, val: u8) -> Cpu {
    match op {
        Op::LDA => with_nz(Cpu { a: val, ..cpu }, val),
        Op::LDX => with_nz(Cpu { x: val, ..cpu }, val),
        Op::LDY => with_nz(Cpu { y: val, ..cpu }, val),
        Op::LAX => with_nz(Cpu { a: val, x: val, ..cpu }, val),
        Op::AND => with_nz(Cpu { a: cpu.a & val, ..cpu }, cpu.a & val),
        Op::ORA => with_nz(Cpu { a: cpu.a | val, ..cpu }, cpu.a | val),
        Op::EOR => with_nz(Cpu { a: cpu.a ^ val, ..cpu }, cpu.a ^ val),
        Op::ADC => {
            let sum = add_with_carry(cpu.a, val, cpu.c, cpu.d);
            with_nz(Cpu { a: sum.val, c: sum.carry, v: sum.overflow, ..cpu }, sum.val)
        },
        Op::SBC => {
            let sum = sub_with_borrow(cpu.a, val, cpu.c, cpu.d);
            with_nz(Cpu { a: sum.val, c: sum.carry, v: sum.overflow, ..cpu }, sum.val)
        },
        Op::CMP => compared(cpu, cpu.a, val),
        Op::CPX => compared(cpu, cpu.x, val),
        Op::CPY => compared(cpu, cpu.y, val),
        Op::BIT => Cpu { n: val >= 128, v: val / 64 % 2 == 1, z: cpu.a & val == 0, ..cpu },
        Op::ANC => with_nz(Cpu { a: cpu.a & val, c: (cpu.a & val) >= 128, ..cpu }, cpu.a & val),
        Op::ALR => {
            let out = shift_right(cpu.a & val);
            with_nz(Cpu { a: out.val, c: out.carry, ..cpu }, out.val)
        },
        Op::ARR => {
            let out = rotate_right(cpu.a & val, cpu.c).val;
            with_nz(
                Cpu {
                    a: out,
                    c: out / 64 % 2 == 1,
                    v: (out / 64 % 2 == 1) != (out / 32 % 2 == 1),
                    ..cpu
                },
                out,
            )
        },
        Op::AXS => {
            let d = difference(cpu.a & cpu.x, val);
            with_nz(Cpu { x: d.val, c: d.carry, ..cpu }, d.val)
        },
        _ => cpu,
    }
}

/// The byte that a storing operation writes.
pub open spec fn stored_value(op: Op, cpu: Cpu) -> u8 {
    match op {
        Op::STA => cpu.a,
        Op::STX => cpu.x,
        Op::STY => cpu.y,
        Op::SAX => cpu.a & cpu.x,
        _ => 0,
    }
}

/// What an operation that changes a byte in place makes of `val`, and what it
/// does to the flags on the way. The undocumented compound operations change
/// the byte as their first half does.
pub open spec fn modified(op: Op, cpu: Cpu, val: u8) -> (u8, Cpu) {
    match op {
        Op::ASL | Op::SLO => {
            let out = shift_left(val);
            (out.val, with_nz(Cpu { c: out.carry, ..cpu }, out.val))
        },
        Op::LSR | Op::SRE => {
            let out = shift_right(val);
            (out.val, with_nz(Cpu { c: out.carry, ..cpu }, out.val))
        },
        Op::ROL | Op::RLA => {
            let out = rotate_left(val, cpu.c);
            (out.val, with_nz(Cpu { c: out.carry, ..cpu }, out.val))
        },
        Op::ROR | Op::RRA => {
            let out = rotate_right(val, cpu.c);
            (out.val, with_nz(Cpu { c: out.carry, ..cpu }, out.val))
        },
        Op::INC | Op::ISC => (increment(val), with_nz(cpu, increment(val))),
        Op::DEC | Op::DCP => (decrement(val), with_nz(cpu, decrement(val))),
        _ => (val, cpu),
    }
}

/// The second half of an undocumented compound operation: what it does with
/// the byte `val` that its first half wrote.
pub open spec fn combined(op: Op, cpu: Cpu, val: u8) -> Cpu {
    match op {
        Op::SLO => applied(Op::ORA, cpu, val),
        Op::RLA => applied(Op::AND, cpu, val),
        Op::SRE => applied(Op::EOR, cpu, val),
        Op::RRA => applied(Op::ADC, cpu, val),
        Op::ISC => applied(Op::SBC, cpu, val),
        Op::DCP => applied(Op::CMP, cpu, val),
        _ => cpu,
    }
}

/// Read, change, write back. Where the bus will not take the byte back, the
/// fault comes before anything is changed.
pub open spec fn read_modify_write<B: Bus>(op: Op, cpu: Cpu, m: B::Model, addr: u16) -> Step<B::Model> {
    let val = B::peek(m, addr);
    let bus = B::after_read(m, addr);
    let out = modified(op, cpu, val);
    if B::accepts(bus, addr) {
        done(combined(op, out.1, out.0), B::after_write(bus, addr, out.0))
    } else {
        failed(cpu, bus, Fault::WriteProtected(addr))
    }
}

/// A shift or rotate of the accumulator.
pub open spec fn accumulator(op: Op, cpu: Cpu) -> Cpu {
    let out = modified(op, cpu, cpu.a);
    Cpu { a: out.0, ..out.1 }
}

/// What an operation without operand does to the processor alone: flag
/// changes, transfers between registers, and counting in X and Y.
pub open spec fn implied(op: Op, cpu: Cpu) -> Cpu {
    match op {
        Op::CLC => Cpu { c: false, ..cpu },
        Op::SEC => Cpu { c: true, ..cpu },
        Op::CLI => Cpu { i: false, ..cpu },
        Op::SEI => Cpu { i: true, ..cpu },
        Op::CLV => Cpu { v: false, ..cpu },
        Op::CLD => Cpu { d: false, ..cpu },
        Op::SED => Cpu { d: true, ..cpu },
        Op::TAX => with_nz(Cpu { x: cpu.a, ..cpu }, cpu.a),
        Op::TAY => with_nz(Cpu { y: cpu.a, ..cpu }, cpu.a),
        Op::TXA => with_nz(Cpu { a: cpu.x, ..cpu }, cpu.x),
        Op::TYA => with_nz(Cpu { a: cpu.y, ..cpu }, cpu.y),
        Op::TSX => with_nz(Cpu { x: cpu.s, ..cpu }, cpu.s),
        Op::TXS => Cpu { s: cpu.x, ..cpu },
        Op::INX => with_nz(Cpu { x: increment(cpu.x), ..cpu }, increment(cpu.x)),
        Op::INY => with_nz(Cpu { y: increment(cpu.y), ..cpu }, increment(cpu.y)),
        Op::DEX => with_nz(Cpu { x: decrement(cpu.x), ..cpu }, decrement(cpu.x)),
        Op::DEY => with_nz(Cpu { y: decrement(cpu.y), ..cpu }, decrement(cpu.y)),
        _ => cpu,
    }
}

/// Whether a branch is taken.
pub open spec fn branches(op: Op, cpu: Cpu) -> bool {
    match op {
        Op::BPL => !cpu.n,
        Op::BMI => cpu.n,
        Op::BVC => !cpu.v,
        Op::BVS => cpu.v,
        Op::BCC => !cpu.c,
        Op::BCS => cpu.c,
        Op::BNE => !cpu.z,
        Op::BEQ => cpu.z,
        _ => false,
    }
}

/// A jump to `addr` that happens only if `taken`: it then costs one more
/// cycle, and another where `addr` lies in another page than the program
/// counter.
pub open spec fn jumped(cpu: Cpu, taken: bool, addr: u16) -> Cpu {
    if taken {
        with_penalty(
            Cpu { pc: addr, ..cpu },
            if pages_differ(cpu.pc, addr) {
                2
            } else {
                1
            },
        )
    } else {
        cpu
    }
}

/// A branch: the target is relative to the instruction that follows.
pub open spec fn branch<B: Bus>(op: Op, cpu: Cpu, m: B::Model) -> Step<B::Model> {
    let o = relative::<B>(cpu, m);
    done(jumped(o.cpu, branches(op, o.cpu), o.addr), o.bus)
}

/// Jump to subroutine: the address of the instruction's last byte is pushed.
pub open spec fn call<B: Bus>(cpu: Cpu, m: B::Model) -> Step<B::Model> {
    let o = fetched_word::<B>(cpu, m);
    let pushed = push_word::<B>(o.cpu, o.bus, o.cpu.pc.wrapping_sub(1));
    if pushed.fault is Some {
        pushed
    } else {
        done(Cpu { pc: o.addr, ..pushed.cpu }, pushed.bus)
    }
}

/// Return from subroutine: execution continues after the pulled address.
pub open spec fn return_from_call<B: Bus>(cpu: Cpu, m: B::Model) -> Step<B::Model> {
    let o = pull_word::<B>(cpu, m);
    done(Cpu { pc: o.addr.wrapping_add(1), ..o.cpu }, o.bus)
}

/// Return from interrupt: the flags are pulled, then the address.
pub open spec fn return_from_interrupt<B: Bus>(cpu: Cpu, m: B::Model) -> Step<B::Model> {
    let status = pull::<B>(cpu, m);
    let o = pull_word::<B>(with_flags(status.cpu, unpack_status(status.val)), status.bus);
    done(Cpu { pc: o.addr, ..o.cpu }, o.bus)
}

/// Pull the accumulator.
pub open spec fn pull_accumulator<B: Bus>(cpu: Cpu, m: B::Model) -> Step<B::Model> {
    let l = pull::<B>(cpu, m);
    done(with_nz(Cpu { a: l.val, ..l.cpu }, l.val), l.bus)
}

/// Pull the flags: the break bit and bit 5 of the pulled byte are ignored.
pub open spec fn pull_status<B: Bus>(cpu: Cpu, m: B::Model) -> Step<B::Model> {
    let l = pull::<B>(cpu, m);
    done(with_flags(l.cpu, unpack_status(l.val)), l.bus)
}

/// What operation `op` in addressing mode `mode` does. `cpu` has its program
/// counter past the opcode.
pub open spec fn execute<B: Bus>(op: Op, mode: AddrMode, cpu: Cpu, m: B::Model) -> Step<B::Model> {
    match op {
        Op::LDA | Op::LDX | Op::LDY | Op::LAX | Op::AND | Op::ORA | Op::EOR | Op::ADC | Op::SBC
        | Op::CMP | Op::CPX | Op::CPY | Op::BIT | Op::ANC | Op::ALR | Op::ARR | Op::AXS => {
            let l = load::<B>(mode, cpu, m);
            done(applied(op, l.cpu, l.val), l.bus)
        },
        Op::NOP => {
            if mode == AddrMode::IMP {
                done(cpu, m)
            } else {
                let l = load::<B>(mode, cpu, m);
                done(l.cpu, l.bus)
            }
        },
        Op::STA | Op::STX | Op::STY | Op::SAX => {
            let o = operand::<B>(mode, cpu, m);
            store::<B>(o.cpu, o.bus, o.addr, stored_value(op, cpu))
        },
        Op::ASL | Op::LSR | Op::ROL | Op::ROR => {
            if mode == AddrMode::IMP {
                done(accumulator(op, cpu), m)
            } else {
                let o = operand::<B>(mode, cpu, m);
                read_modify_write::<B>(op, o.cpu, o.bus, o.addr)
            }
        },
        Op::INC | Op::DEC | Op::SLO | Op::RLA | Op::SRE | Op::RRA | Op::DCP | Op::ISC => {
            let o = operand::<B>(mode, cpu, m);
            read_modify_write::<B>(op, o.cpu, o.bus, o.addr)
        },
        Op::CLC | Op::SEC | Op::CLI | Op::SEI | Op::CLV | Op::CLD | Op::SED | Op::TAX | Op::TAY
        | Op::TXA | Op::TYA | Op::TSX | Op::TXS | Op::INX | Op::INY | Op::DEX | Op::DEY => done(
            implied(op, cpu),
            m,
        ),
        Op::BPL | Op::BMI | Op::BVC | Op::BVS | Op::BCC | Op::BCS | Op::BNE | Op::BEQ => branch::<B>(
            op,
            cpu,
            m,
        ),
        Op::JMP => {
            let o = operand::<B>(mode, cpu, m);
            done(Cpu { pc: o.addr, ..o.cpu }, o.bus)
        },
        Op::JSR => call::<B>(cpu, m),
        Op::RTS => return_from_call::<B>(cpu, m),
        Op::RTI => return_from_interrupt::<B>(cpu, m),
        Op::BRK => interrupt::<B>(cpu, m, IRQ_VECTOR, true, cpu.pc.wrapping_add(1)),
        Op::PHA => push::<B>(cpu, m, cpu.a),
        Op::PHP => push::<B>(cpu, m, pack_status(flags_of(cpu), true)),
        Op::PLA => pull_accumulator::<B>(cpu, m),
        Op::PLP => pull_status::<B>(cpu, m),
        Op::HLT => failed(cpu, m, Fault::Halt),
        Op::AHX | Op::LAS | Op::SHX | Op::SHY | Op::TAS | Op::XAA => failed(
            cpu,
            m,
            Fault::Unimplemented,
        ),
    }
}

/// What the instruction with opcode `opcode` does. `cpu` has its program
/// counter past the opcode and its cycle budget at the opcode's base count.
pub open spec fn instr<B: Bus>(cpu: Cpu, m: B::Model, opcode: u8) -> Step<B::Model> {
    execute::<B>(decode(opcode).0, decode(opcode).1, cpu, m)
}

/// The cycle in which an instruction or interrupt entry did its work is
/// charged at once, unless a fault stopped it.
pub open spec fn charged<M>(step: Step<M>) -> Step<M> {
    if step.fault is Some {
        step
    } else {
        Step {
            cpu: Cpu { cycles_remaining: step.cpu.cycles_remaining.wrapping_sub(1), ..step.cpu },
            ..step
        }
    }
}

/// Fetching the opcode at the program counter and executing its instruction.
pub open spec fn fetch_execute<B: Bus>(cpu: Cpu, m: B::Model) -> Step<B::Model> {
    let opcode = fetched::<B>(cpu, m);
    instr::<B>(
        Cpu { opcode: opcode.val, cycles_remaining: base_cycles(opcode.val), ..opcode.cpu },
        opcode.bus,
        opcode.val,
    )
}

/// One tick of the processor. While an instruction's cycles are not used up,
/// a tick only counts one down. Otherwise a pending non-maskable interrupt is
/// entered, or a requested interrupt where the flags allow it, or the next
/// instruction is executed.
#[verifier::opaque]
pub open spec fn ticked<B: Bus>(cpu: Cpu, m: B::Model) -> Step<B::Model> {
    if cpu.cycles_remaining > 0 {
        done(Cpu { cycles_remaining: (cpu.cycles_remaining - 1) as u8, ..cpu }, m)
    } else if cpu.nmi_pending {
        charged(
            interrupt::<B>(
                Cpu { nmi_pending: false, cycles_remaining: INTERRUPT_CYCLES, ..cpu },
                m,
                NMI_VECTOR,
                false,
                cpu.pc,
            ),
        )
    } else if cpu.irq_line && !cpu.i {
        charged(
            interrupt::<B>(
                Cpu { cycles_remaining: INTERRUPT_CYCLES, ..cpu },
                m,
                IRQ_VECTOR,
                false,
                cpu.pc,
            ),
        )
    } else {
        charged(fetch_execute::<B>(cpu, m))
    }
}

/// The processor after a reset: execution starts at the address that the
/// reset vector holds, with interrupts disabled, decimal mode off and the
/// stack pointer at 0xFD.
pub open spec fn reset_to<B: Bus>(cpu: Cpu, m: B::Model) -> Step<B::Model> {
    let target = word_read::<B>(m, RESET_VECTOR, RESET_VECTOR.wrapping_add(1));
    done(
        Cpu {
            pc: target.0,
            s: 0xFD,
            i: true,
            d: false,
            cycles_remaining: 0,
            nmi_pending: false,
            irq_line: false,
            ..cpu
        },
        target.1,
    )
}

} // verus!
