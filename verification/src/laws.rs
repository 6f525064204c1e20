// What holds of every instruction of a kind, proved from the instruction
// set's definition.
use crate::alu::{
    bit, decrement, difference, lemma_carry_is_full_width, lemma_status_round_trip, pack_status,
};
use crate::atari800::{device_at, Board, BoardView, Device};
use crate::bus::{high_byte, low_byte, word, word_read, Bus};
use crate::cpu::Cpu;
use crate::cpu_table::{base_cycles, decode, lemma_base_cycles, AddrMode, Op};
use crate::isa::{
    applied, branches, combined, execute, fetched, flags_of, implied, load, modified, operand,
    pull_accumulator, read_modify_write, stack_addr, ticked, Step,
};
use vstd::prelude::*;

verus! {

/// Where an operation leaves the byte from which it sets N and Z.
pub enum ResultPlace {
    /// In the accumulator.
    A,
    /// In the X register.
    X,
    /// In the Y register.
    Y,
    /// In the byte that it changed in memory.
    Memory,
    /// Nowhere: the byte is the difference of a comparison.
    Difference,
    /// The operation does not set N and Z from a result.
    Nowhere,
}

/// Where operation `op` in addressing mode `mode` leaves its result.
pub open spec fn result_place(op: Op, mode: AddrMode) -> ResultPlace {
    match op {
        Op::LDA | Op::AND | Op::ORA | Op::EOR | Op::ADC | Op::SBC | Op::PLA | Op::TXA | Op::TYA
        | Op::LAX | Op::ANC | Op::ALR | Op::ARR | Op::SLO | Op::RLA | Op::SRE | Op::RRA
        | Op::ISC => ResultPlace::A,
        Op::LDX | Op::TAX | Op::TSX | Op::INX | Op::DEX | Op::AXS => ResultPlace::X,
        Op::LDY | Op::TAY | Op::INY | Op::DEY => ResultPlace::Y,
        Op::ASL | Op::LSR | Op::ROL | Op::ROR => if mode == AddrMode::IMP {
            ResultPlace::A
        } else {
            ResultPlace::Memory
        },
        Op::INC | Op::DEC => ResultPlace::Memory,
        Op::CMP | Op::CPX | Op::CPY | Op::DCP => ResultPlace::Difference,
        _ => ResultPlace::Nowhere,
    }
}

/// The register that a comparison compares.
pub open spec fn compared_register(op: Op, cpu: Cpu) -> u8 {
    match op {
        Op::CPX => cpu.x,
        Op::CPY => cpu.y,
        _ => cpu.a,
    }
}

/// The result byte of operation `op` in mode `mode`, started on `cpu` and
/// `m` and ended in `after`.
pub open spec fn result_byte<B: Bus>(
    op: Op,
    mode: AddrMode,
    cpu: Cpu,
    m: B::Model,
    after: Step<B::Model>,
) -> u8 {
    match result_place(op, mode) {
        ResultPlace::A => after.cpu.a,
        ResultPlace::X => after.cpu.x,
        ResultPlace::Y => after.cpu.y,
        ResultPlace::Memory => {
            let o = operand::<B>(mode, cpu, m);
            modified(op, o.cpu, B::peek(o.bus, o.addr)).0
        },
        ResultPlace::Difference => if op == Op::DCP {
            let o = operand::<B>(mode, cpu, m);
            difference(cpu.a, decrement(B::peek(o.bus, o.addr))).val
        } else {
            difference(compared_register(op, cpu), load::<B>(mode, cpu, m).val).val
        },
        ResultPlace::Nowhere => 0,
    }
}

/// What holds of `cpu` when its N and Z describe the byte `result`.
pub open spec fn nz_describe(cpu: Cpu, result: u8) -> bool {
    cpu.n == (result >= 128) && cpu.z == (result == 0)
}

/// N and Z after an operation that reads its operand describe the register
/// that took the result, or the difference that a comparison formed.
pub proof fn lemma_nz_after_read(op: Op, cpu: Cpu, val: u8)
    ensures
        op == Op::LDA || op == Op::LAX || op == Op::AND || op == Op::ORA || op == Op::EOR || op
            == Op::ADC || op == Op::SBC || op == Op::ANC || op == Op::ALR || op == Op::ARR
            ==> nz_describe(applied(op, cpu, val), applied(op, cpu, val).a),
        op == Op::LDX || op == Op::AXS ==> nz_describe(
            applied(op, cpu, val),
            applied(op, cpu, val).x,
        ),
        op == Op::LDY ==> nz_describe(applied(op, cpu, val), applied(op, cpu, val).y),
        op == Op::CMP || op == Op::CPX || op == Op::CPY ==> nz_describe(
            applied(op, cpu, val),
            difference(compared_register(op, cpu), val).val,
        ),
{
}

/// N and Z after a change in place describe the changed byte, and after the
/// second half of a compound operation they describe the accumulator, or
/// the difference that the comparison formed.
pub proof fn lemma_nz_after_change(op: Op, cpu: Cpu, val: u8)
    ensures
        nz_describe(modified(Op::ASL, cpu, val).1, modified(Op::ASL, cpu, val).0),
        nz_describe(modified(Op::LSR, cpu, val).1, modified(Op::LSR, cpu, val).0),
        nz_describe(modified(Op::ROL, cpu, val).1, modified(Op::ROL, cpu, val).0),
        nz_describe(modified(Op::ROR, cpu, val).1, modified(Op::ROR, cpu, val).0),
        nz_describe(modified(Op::INC, cpu, val).1, modified(Op::INC, cpu, val).0),
        nz_describe(modified(Op::DEC, cpu, val).1, modified(Op::DEC, cpu, val).0),
        op == Op::SLO || op == Op::RLA || op == Op::SRE || op == Op::RRA || op == Op::ISC
            ==> nz_describe(combined(op, cpu, val), combined(op, cpu, val).a),
        nz_describe(combined(Op::DCP, cpu, val), difference(cpu.a, val).val),
{
}

/// N and Z after an operation on the registers alone describe the register
/// that took the result.
pub proof fn lemma_nz_after_implied(op: Op, cpu: Cpu)
    ensures
        op == Op::TXA || op == Op::TYA ==> nz_describe(implied(op, cpu), implied(op, cpu).a),
        op == Op::TAX || op == Op::TSX || op == Op::INX || op == Op::DEX ==> nz_describe(
            implied(op, cpu),
            implied(op, cpu).x,
        ),
        op == Op::TAY || op == Op::INY || op == Op::DEY ==> nz_describe(
            implied(op, cpu),
            implied(op, cpu).y,
        ),
{
}

/// The operations that read their operand and set N and Z.
pub open spec fn reads_and_sets_nz(op: Op) -> bool {
    op == Op::LDA || op == Op::LDX || op == Op::LDY || op == Op::LAX || op == Op::AND || op
        == Op::ORA || op == Op::EOR || op == Op::ADC || op == Op::SBC || op == Op::CMP || op
        == Op::CPX || op == Op::CPY || op == Op::ANC || op == Op::ALR || op == Op::ARR || op
        == Op::AXS
}

/// The operations that change a byte in memory.
pub open spec fn changes_memory(op: Op, mode: AddrMode) -> bool {
    op == Op::INC || op == Op::DEC || op == Op::SLO || op == Op::RLA || op == Op::SRE || op
        == Op::RRA || op == Op::DCP || op == Op::ISC || (mode != AddrMode::IMP && (op == Op::ASL
        || op == Op::LSR || op == Op::ROL || op == Op::ROR))
}

proof fn lemma_nz_of_reading<B: Bus>(op: Op, mode: AddrMode, cpu: Cpu, m: B::Model)
    requires
        reads_and_sets_nz(op),
    ensures
        nz_describe(
            execute::<B>(op, mode, cpu, m).cpu,
            result_byte::<B>(op, mode, cpu, m, execute::<B>(op, mode, cpu, m)),
        ),
{
    let l = load::<B>(mode, cpu, m);
    assert(execute::<B>(op, mode, cpu, m).cpu == applied(op, l.cpu, l.val));
    assert(l.cpu.a == cpu.a && l.cpu.x == cpu.x && l.cpu.y == cpu.y);
    lemma_nz_after_read(op, l.cpu, l.val);
}

proof fn lemma_nz_of_changing<B: Bus>(op: Op, mode: AddrMode, cpu: Cpu, m: B::Model)
    requires
        changes_memory(op, mode),
        execute::<B>(op, mode, cpu, m).fault is None,
    ensures
        nz_describe(
            execute::<B>(op, mode, cpu, m).cpu,
            result_byte::<B>(op, mode, cpu, m, execute::<B>(op, mode, cpu, m)),
        ),
{
    let o = operand::<B>(mode, cpu, m);
    let val = B::peek(o.bus, o.addr);
    let out = modified(op, o.cpu, val);
    assert(execute::<B>(op, mode, cpu, m) == read_modify_write::<B>(op, o.cpu, o.bus, o.addr));
    assert(execute::<B>(op, mode, cpu, m).cpu == combined(op, out.1, out.0));
    assert(o.cpu.a == cpu.a);
    assert(out.1.a == cpu.a);
    lemma_nz_after_change(op, o.cpu, val);
    lemma_nz_after_change(op, out.1, out.0);
}

proof fn lemma_nz_of_registers<B: Bus>(op: Op, mode: AddrMode, cpu: Cpu, m: B::Model)
    requires
        !(result_place(op, mode) is Nowhere),
        !reads_and_sets_nz(op),
        !changes_memory(op, mode),
    ensures
        nz_describe(
            execute::<B>(op, mode, cpu, m).cpu,
            result_byte::<B>(op, mode, cpu, m, execute::<B>(op, mode, cpu, m)),
        ),
{
    if op == Op::PLA {
        assert(execute::<B>(op, mode, cpu, m) == pull_accumulator::<B>(cpu, m));
    } else if op == Op::ASL || op == Op::LSR || op == Op::ROL || op == Op::ROR {
        lemma_nz_after_change(op, cpu, cpu.a);
    } else {
        lemma_nz_after_implied(op, cpu);
    }
}

/// After every operation that sets N and Z from a result, N is bit 7 of the
/// result and Z says that the result is zero.
pub proof fn lemma_nz_reflect_result<B: Bus>(op: Op, mode: AddrMode, cpu: Cpu, m: B::Model)
    requires
        !(result_place(op, mode) is Nowhere),
        execute::<B>(op, mode, cpu, m).fault is None,
    ensures
        nz_describe(
            execute::<B>(op, mode, cpu, m).cpu,
            result_byte::<B>(op, mode, cpu, m, execute::<B>(op, mode, cpu, m)),
        ),
{
    if reads_and_sets_nz(op) {
        lemma_nz_of_reading::<B>(op, mode, cpu, m);
    } else if changes_memory(op, mode) {
        lemma_nz_of_changing::<B>(op, mode, cpu, m);
    } else {
        lemma_nz_of_registers::<B>(op, mode, cpu, m);
    }
}

/// After an addition in binary mode the carry says that the full sum does
/// not fit in a byte; after a subtraction it says that the full difference
/// is not negative, which means that no borrow was needed.
pub proof fn lemma_carry_after_arithmetic<B: Bus>(mode: AddrMode, cpu: Cpu, m: B::Model)
    ensures
        !cpu.d ==> execute::<B>(Op::ADC, mode, cpu, m).cpu.c == (cpu.a + load::<B>(
            mode,
            cpu,
            m,
        ).val + bit(cpu.c) > 255),
        execute::<B>(Op::SBC, mode, cpu, m).cpu.c == (cpu.a - load::<B>(mode, cpu, m).val - bit(
            !cpu.c,
        ) >= 0),
{
    let l = load::<B>(mode, cpu, m);
    assert(l.cpu.a == cpu.a && l.cpu.c == cpu.c && l.cpu.d == cpu.d);
    lemma_carry_is_full_width(cpu.a, l.val, cpu.c, cpu.d);
}

/// The bus keeps a byte written at `addr`: it accepts the write, and a read
/// at `addr` then returns the byte and changes nothing.
pub open spec fn keeps<B: Bus>(m: B::Model, addr: u16, val: u8) -> bool {
    let written = B::after_write(m, addr, val);
    B::accepts(m, addr) && B::peek(written, addr) == val && B::after_read(written, addr) == written
}

/// Pushing the flags and pulling them again leaves the six flags as they
/// were, whatever was done to them in between. The pushed byte has the
/// break bit and bit 5 set, and the pull ignores both.
pub proof fn lemma_php_plp_round_trip<B: Bus>(cpu: Cpu, m: B::Model, between: Cpu)
    requires
        keeps::<B>(m, stack_addr(cpu.s), pack_status(flags_of(cpu), true)),
        between.s == execute::<B>(Op::PHP, AddrMode::IMP, cpu, m).cpu.s,
    ensures
        ({
            let pushed = execute::<B>(Op::PHP, AddrMode::IMP, cpu, m);
            let pulled = execute::<B>(Op::PLP, AddrMode::IMP, between, pushed.bus);
            &&& pushed.fault is None
            &&& B::peek(pushed.bus, stack_addr(cpu.s)) / 16 % 2 == 1
            &&& B::peek(pushed.bus, stack_addr(cpu.s)) / 32 % 2 == 1
            &&& pulled.fault is None
            &&& flags_of(pulled.cpu) == flags_of(cpu)
            &&& pulled.cpu.s == cpu.s
        }),
{
    lemma_status_round_trip(flags_of(cpu), true);
}

/// Pushing the accumulator and pulling it again leaves it as it was,
/// whatever was done to it in between.
pub proof fn lemma_pha_pla_round_trip<B: Bus>(cpu: Cpu, m: B::Model, between: Cpu)
    requires
        keeps::<B>(m, stack_addr(cpu.s), cpu.a),
        between.s == execute::<B>(Op::PHA, AddrMode::IMP, cpu, m).cpu.s,
    ensures
        ({
            let pushed = execute::<B>(Op::PHA, AddrMode::IMP, cpu, m);
            let pulled = execute::<B>(Op::PLA, AddrMode::IMP, between, pushed.bus);
            &&& pushed.fault is None
            &&& pulled.fault is None
            &&& pulled.cpu.a == cpu.a
            &&& pulled.cpu.s == cpu.s
        }),
{
}

/// The address that a subroutine call at `cpu` pushes: that of the last
/// byte of the call instruction. `cpu` has its program counter past the
/// opcode.
pub open spec fn return_address(cpu: Cpu) -> u16 {
    cpu.pc.wrapping_add(1)
}

/// A return from subroutine that finds the stack as the call left it
/// continues at the instruction after the call, with the stack pointer that
/// the call started from. `later` and `bus` are processor and bus when the
/// return is executed: the stack pointer is where the call left it, and the
/// two bytes above it read as the address that the call pushed.
pub proof fn lemma_jsr_rts_round_trip<B: Bus>(cpu: Cpu, m: B::Model, later: Cpu, bus: B::Model)
    requires
        execute::<B>(Op::JSR, AddrMode::ABS, cpu, m).fault is None,
        later.s == execute::<B>(Op::JSR, AddrMode::ABS, cpu, m).cpu.s,
        word_read::<B>(
            bus,
            stack_addr(cpu.s.wrapping_sub(1)),
            stack_addr(cpu.s),
        ).0 == return_address(cpu),
    ensures
        ({
            let returned = execute::<B>(Op::RTS, AddrMode::IMP, later, bus);
            &&& returned.fault is None
            &&& returned.cpu.pc == cpu.pc.wrapping_add(2)
            &&& returned.cpu.s == cpu.s
        }),
{
    let called = execute::<B>(Op::JSR, AddrMode::ABS, cpu, m);
    assert(called.cpu.s == cpu.s.wrapping_sub(2));
}

/// On the board a read changes nothing.
pub proof fn lemma_board_reads_are_pure(m: BoardView, addr: u16)
    ensures
        Board::after_read(m, addr) == m,
{
}

/// On the board the stack page keeps what is written to it wherever it is
/// RAM, and a write there changes no other address of the stack page.
pub proof fn lemma_board_stack_keeps(m: BoardView, s: u8, val: u8, other: u8)
    requires
        m.wf(),
        m.mem.is_ram(0x01FF),
    ensures
        keeps::<Board>(m, stack_addr(s), val),
        Board::after_write(m, stack_addr(s), val).wf(),
        Board::after_write(m, stack_addr(s), val).mem.is_ram(0x01FF),
        other != s ==> Board::peek(Board::after_write(m, stack_addr(s), val), stack_addr(other))
            == Board::peek(m, stack_addr(other)),
{
    assert(device_at(stack_addr(s)) == Device::Memory);
    assert(device_at(stack_addr(other)) == Device::Memory);
    assert(m.mem.is_ram(stack_addr(s)));
}

/// On the board, with the stack page in RAM, a return that follows a call
/// at once continues at the instruction after the call and restores the
/// stack pointer.
pub proof fn lemma_board_jsr_rts(cpu: Cpu, m: BoardView)
    requires
        m.wf(),
        m.mem.is_ram(0x01FF),
    ensures
        ({
            let called = execute::<Board>(Op::JSR, AddrMode::ABS, cpu, m);
            let returned = execute::<Board>(Op::RTS, AddrMode::IMP, called.cpu, called.bus);
            &&& called.fault is None
            &&& returned.fault is None
            &&& returned.cpu.pc == cpu.pc.wrapping_add(2)
            &&& returned.cpu.s == cpu.s
        }),
{
    let ret = return_address(cpu);
    let hi_addr = stack_addr(cpu.s);
    let lo_addr = stack_addr(cpu.s.wrapping_sub(1));
    lemma_board_stack_keeps(m, cpu.s, high_byte(ret), cpu.s.wrapping_sub(1));
    let m1 = Board::after_write(m, hi_addr, high_byte(ret));
    lemma_board_stack_keeps(m1, cpu.s.wrapping_sub(1), low_byte(ret), cpu.s);
    let m2 = Board::after_write(m1, lo_addr, low_byte(ret));
    let called = execute::<Board>(Op::JSR, AddrMode::ABS, cpu, m);
    assert(called.bus == m2);
    assert(Board::peek(m2, lo_addr) == low_byte(ret));
    assert(Board::peek(m2, hi_addr) == high_byte(ret));
    assert(word(low_byte(ret), high_byte(ret)) == ret);
    lemma_jsr_rts_round_trip::<Board>(cpu, m, called.cpu, called.bus);
}

/// On the board, a word written to RAM is the word then read there: low
/// byte first, the second address wrapping round the end of the address
/// space.
pub proof fn lemma_board_word_round_trip(m: BoardView, addr: u16, val: u16)
    requires
        m.wf(),
        device_at(addr) == Device::Memory,
        device_at(addr.wrapping_add(1)) == Device::Memory,
        m.mem.is_ram(addr),
        m.mem.is_ram(addr.wrapping_add(1)),
    ensures
        ({
            let written = Board::after_write(
                Board::after_write(m, addr, low_byte(val)),
                addr.wrapping_add(1),
                high_byte(val),
            );
            word_read::<Board>(written, addr, addr.wrapping_add(1)).0 == val
        }),
{
}

/// The operations that read their operand and pay for a page crossing.
pub open spec fn pays_for_crossing(op: Op, mode: AddrMode) -> bool {
    reads_and_sets_nz(op) || op == Op::BIT || (op == Op::NOP && mode != AddrMode::IMP)
}

/// The operations that branch on a flag.
pub open spec fn is_branch(op: Op) -> bool {
    op == Op::BPL || op == Op::BMI || op == Op::BVC || op == Op::BVS || op == Op::BCC || op
        == Op::BCS || op == Op::BNE || op == Op::BEQ
}

/// The cycles that an instruction takes beyond the base count of its
/// opcode: one for a reading instruction whose indexed operand lies in
/// another page than its base address, one for a branch that is taken, and
/// one more for a taken branch into another page. Stores and changes in
/// place never pay.
pub open spec fn extra_cycles<B: Bus>(op: Op, mode: AddrMode, cpu: Cpu, m: B::Model) -> u8 {
    if pays_for_crossing(op, mode) {
        if operand::<B>(mode, cpu, m).crossed {
            1
        } else {
            0
        }
    } else if is_branch(op) {
        if !branches(op, cpu) {
            0
        } else if operand::<B>(AddrMode::REL, cpu, m).crossed {
            2
        } else {
            1
        }
    } else {
        0
    }
}

proof fn lemma_cycles_of_reading<B: Bus>(op: Op, mode: AddrMode, cpu: Cpu, m: B::Model)
    requires
        pays_for_crossing(op, mode),
    ensures
        execute::<B>(op, mode, cpu, m).cpu.cycles_remaining == cpu.cycles_remaining.wrapping_add(
            extra_cycles::<B>(op, mode, cpu, m),
        ),
{
    let o = operand::<B>(mode, cpu, m);
    let l = load::<B>(mode, cpu, m);
    assert(o.cpu.cycles_remaining == cpu.cycles_remaining);
    assert(applied(op, l.cpu, l.val).cycles_remaining == l.cpu.cycles_remaining);
}

proof fn lemma_cycles_of_branching<B: Bus>(op: Op, mode: AddrMode, cpu: Cpu, m: B::Model)
    requires
        is_branch(op),
    ensures
        execute::<B>(op, mode, cpu, m).cpu.cycles_remaining == cpu.cycles_remaining.wrapping_add(
            extra_cycles::<B>(op, mode, cpu, m),
        ),
{
    let o = operand::<B>(AddrMode::REL, cpu, m);
    assert(o.cpu.cycles_remaining == cpu.cycles_remaining);
    assert(branches(op, o.cpu) == branches(op, cpu));
}

/// The operations that store a register.
pub open spec fn stores(op: Op) -> bool {
    op == Op::STA || op == Op::STX || op == Op::STY || op == Op::SAX
}

/// The operations that use the stack or set the program counter.
pub open spec fn moves_control(op: Op) -> bool {
    op == Op::JMP || op == Op::JSR || op == Op::RTS || op == Op::RTI || op == Op::BRK || op
        == Op::PHA || op == Op::PHP || op == Op::PLA || op == Op::PLP
}

proof fn lemma_cycles_of_storing<B: Bus>(op: Op, mode: AddrMode, cpu: Cpu, m: B::Model)
    requires
        stores(op),
    ensures
        execute::<B>(op, mode, cpu, m).cpu.cycles_remaining == cpu.cycles_remaining,
{
    let o = operand::<B>(mode, cpu, m);
    assert(o.cpu.cycles_remaining == cpu.cycles_remaining);
}

proof fn lemma_cycles_of_changing<B: Bus>(op: Op, mode: AddrMode, cpu: Cpu, m: B::Model)
    requires
        changes_memory(op, mode),
    ensures
        execute::<B>(op, mode, cpu, m).cpu.cycles_remaining == cpu.cycles_remaining,
{
    let o = operand::<B>(mode, cpu, m);
    assert(o.cpu.cycles_remaining == cpu.cycles_remaining);
    let val = B::peek(o.bus, o.addr);
    let out = modified(op, o.cpu, val);
    assert(execute::<B>(op, mode, cpu, m) == read_modify_write::<B>(op, o.cpu, o.bus, o.addr));
    assert(out.1.cycles_remaining == o.cpu.cycles_remaining);
    assert(combined(op, out.1, out.0).cycles_remaining == out.1.cycles_remaining);
}

proof fn lemma_cycles_of_control<B: Bus>(op: Op, mode: AddrMode, cpu: Cpu, m: B::Model)
    requires
        moves_control(op),
    ensures
        execute::<B>(op, mode, cpu, m).cpu.cycles_remaining == cpu.cycles_remaining,
{
    if op == Op::JMP {
        let o = operand::<B>(mode, cpu, m);
        assert(o.cpu.cycles_remaining == cpu.cycles_remaining);
    }
}

proof fn lemma_cycles_of_registers<B: Bus>(op: Op, mode: AddrMode, cpu: Cpu, m: B::Model)
    requires
        !pays_for_crossing(op, mode),
        !is_branch(op),
        !stores(op),
        !changes_memory(op, mode),
        !moves_control(op),
    ensures
        execute::<B>(op, mode, cpu, m).cpu.cycles_remaining == cpu.cycles_remaining,
{
    assert(implied(op, cpu).cycles_remaining == cpu.cycles_remaining);
    assert(modified(op, cpu, cpu.a).1.cycles_remaining == cpu.cycles_remaining);
}

proof fn lemma_cycles_of_the_rest<B: Bus>(op: Op, mode: AddrMode, cpu: Cpu, m: B::Model)
    requires
        !pays_for_crossing(op, mode),
        !is_branch(op),
    ensures
        execute::<B>(op, mode, cpu, m).cpu.cycles_remaining == cpu.cycles_remaining,
{
    if stores(op) {
        lemma_cycles_of_storing::<B>(op, mode, cpu, m);
    } else if changes_memory(op, mode) {
        lemma_cycles_of_changing::<B>(op, mode, cpu, m);
    } else if moves_control(op) {
        lemma_cycles_of_control::<B>(op, mode, cpu, m);
    } else {
        lemma_cycles_of_registers::<B>(op, mode, cpu, m);
    }
}

/// Every instruction takes the base count of its opcode and the extra
/// cycles of its kind, whether it ends in a fault or not.
pub proof fn lemma_cycle_cost<B: Bus>(op: Op, mode: AddrMode, cpu: Cpu, m: B::Model)
    ensures
        execute::<B>(op, mode, cpu, m).cpu.cycles_remaining == cpu.cycles_remaining.wrapping_add(
            extra_cycles::<B>(op, mode, cpu, m),
        ),
        extra_cycles::<B>(op, mode, cpu, m) <= 2,
{
    if pays_for_crossing(op, mode) {
        lemma_cycles_of_reading::<B>(op, mode, cpu, m);
    } else if is_branch(op) {
        lemma_cycles_of_branching::<B>(op, mode, cpu, m);
    } else {
        lemma_cycles_of_the_rest::<B>(op, mode, cpu, m);
    }
}

/// A tick that executes an instruction leaves as many cycles to count down
/// as the instruction costs, less the one of the tick itself: the base
/// count of the opcode and the extra cycles of the instruction.
pub proof fn lemma_tick_cost<B: Bus>(cpu: Cpu, m: B::Model)
    requires
        cpu.cycles_remaining == 0,
        !cpu.nmi_pending,
        !(cpu.irq_line && !cpu.i),
        ticked::<B>(cpu, m).fault is None,
    ensures
        ({
            let opcode = fetched::<B>(cpu, m);
            let started = Cpu {
                opcode: opcode.val,
                cycles_remaining: base_cycles(opcode.val),
                ..opcode.cpu
            };
            ticked::<B>(cpu, m).cpu.cycles_remaining == base_cycles(opcode.val) + extra_cycles::<
                B,
            >(decode(opcode.val).0, decode(opcode.val).1, started, opcode.bus) - 1
        }),
{
    reveal(ticked);
    let opcode = fetched::<B>(cpu, m);
    let started = Cpu { opcode: opcode.val, cycles_remaining: base_cycles(opcode.val), ..opcode.cpu };
    lemma_cycle_cost::<B>(decode(opcode.val).0, decode(opcode.val).1, started, opcode.bus);
    assert(2 <= base_cycles(opcode.val) <= 8) by {
        lemma_base_cycles(opcode.val);
    }
}

} // verus!
