use crate::alu::{flags_value, status_value, Flags};
use crate::bus::{make_word, split_word, Bus};
use crate::cpu_table::AddrMode;
use crate::isa::{
    absolute, fetched, fetched_word, flags_of, indirect_indexed, interrupt, load, operand, pull,
    pull_word, push, push_word, reset_to, resolves, stack_addr, step_of, with_flags, with_nz,
    with_penalty, zero_page, Loaded, Operand, IRQ_VECTOR, NMI_VECTOR, RESET_VECTOR, STACK_BASE,
};
use vstd::prelude::*;

verus! {

/// Why the processor stopped.
#[derive(Clone, Copy, Debug, PartialEq, Eq, Structural)]
pub enum Fault {
    /// A halt opcode was executed.
    Halt,
    /// An undocumented opcode without a known stable behaviour was executed.
    Unimplemented,
    /// An instruction tried to write where the bus accepts no write.
    WriteProtected(u16),
}

/// The state of a 6502 processor.
#[derive(Clone, Copy, Debug, PartialEq, Eq)]
pub struct Cpu {
    pub pc: u16,
    pub a: u8,
    pub x: u8,
    pub y: u8,
    pub s: u8,
    pub n: bool,
    pub v: bool,
    pub d: bool,
    pub i: bool,
    pub z: bool,
    pub c: bool,
    /// Cycles that have to pass before the next instruction is fetched.
    pub cycles_remaining: u8,
    /// The opcode of the instruction that was fetched last.
    pub opcode: u8,
    /// A non-maskable interrupt waits for the next instruction boundary.
    pub nmi_pending: bool,
    /// The level of the interrupt-request line.
    pub irq_line: bool,
}

impl Cpu {
    /// The processor at power-on, before any reset.
    pub open spec fn power_on() -> Cpu {
        Cpu {
            pc: 0,
            a: 0,
            x: 0,
            y: 0,
            s: 0xff,
            n: false,
            v: false,
            d: false,
            i: false,
            z: false,
            c: false,
            cycles_remaining: 0,
            opcode: 0,
            nmi_pending: false,
            irq_line: false,
        }
    }

    pub fn new() -> (cpu: Cpu)
        ensures
            cpu == Cpu::power_on(),
    {
        Cpu {
            pc: 0x0000,
            a: 0x00,
            x: 0x00,
            y: 0x00,
            s: 0xff,
            n: false,
            v: false,
            d: false,
            i: false,
            z: false,
            c: false,
            cycles_remaining: 0,
            opcode: 0,
            nmi_pending: false,
            irq_line: false,
        }
    }

    pub fn reset<B: Bus>(&mut self, bus: &mut B)
        requires
            old(bus).valid(),
        ensures
            final(bus).valid(),
            step_of(*final(self), final(bus).model(), Ok(())) == reset_to::<B>(*old(self), old(bus).model()),
    {
        self.pc = bus.read_word(RESET_VECTOR);
        self.s = 0xFD;
        self.i = true;
        self.d = false;
        self.cycles_remaining = 0;
        self.nmi_pending = false;
        self.irq_line = false;
    }

    /// Latches a non-maskable interrupt: it is entered at the next
    /// instruction boundary.
    pub fn request_nmi(&mut self)
        ensures
            *final(self) == (Cpu { nmi_pending: true, ..*old(self) }),
    {
        self.nmi_pending = true;
    }

    /// Sets the level of the interrupt-request line.
    pub fn set_irq(&mut self, level: bool)
        ensures
            *final(self) == (Cpu { irq_line: level, ..*old(self) }),
    {
        self.irq_line = level;
    }

    /// The handler of opcodes whose behaviour is not implemented.
    pub fn unimpl<B: Bus>(&mut self, bus: &mut B) -> (result: Result<(), Fault>)
        ensures
            result == Err::<(), Fault>(Fault::Unimplemented),
            *final(self) == *old(self),
            *final(bus) == *old(bus),
    {
        Err(Fault::Unimplemented)
    }

    pub fn fetch_byte<B: Bus>(&mut self, bus: &mut B) -> (val: u8)
        requires
            old(bus).valid(),
        ensures
            final(bus).valid(),
            (Loaded { val, cpu: *final(self), bus: final(bus).model() }) == fetched::<B>(
                *old(self),
                old(bus).model(),
            ),
    {
        let val = bus.read(self.pc);
        self.pc = self.pc.wrapping_add(1);
        val
    }

    pub fn fetch_word<B: Bus>(&mut self, bus: &mut B) -> (val: u16)
        requires
            old(bus).valid(),
        ensures
            final(bus).valid(),
            resolves(val, *final(self), final(bus).model(), fetched_word::<B>(*old(self), old(bus).model())),
    {
        let lo = self.fetch_byte(bus);
        let hi = self.fetch_byte(bus);
        make_word(lo, hi)
    }

    /// Reads the word whose low byte is at `lo_addr` and whose high byte is
    /// at `hi_addr`.
    pub fn read_pointer<B: Bus>(bus: &mut B, lo_addr: u16, hi_addr: u16) -> (val: u16)
        requires
            old(bus).valid(),
        ensures
            final(bus).valid(),
            (val, final(bus).model()) == crate::bus::word_read::<B>(old(bus).model(), lo_addr, hi_addr),
    {
        let lo = bus.read(lo_addr);
        let hi = bus.read(hi_addr);
        make_word(lo, hi)
    }

    /// Charges `extra` more cycles to the running instruction.
    pub fn add_cycles(&mut self, extra: u8)
        ensures
            *final(self) == with_penalty(*old(self), extra),
    {
        self.cycles_remaining = self.cycles_remaining.wrapping_add(extra);
    }

    /// Zero-page operand address with `index` added within the page.
    pub fn index_zero_page<B: Bus>(&mut self, bus: &mut B, index: u8) -> (addr: u16)
        requires
            old(bus).valid(),
        ensures
            final(bus).valid(),
            resolves(addr, *final(self), final(bus).model(), zero_page::<B>(*old(self), old(bus).model(), index)),
    {
        let base = self.fetch_byte(bus);
        base.wrapping_add(index) as u16
    }

    /// Absolute operand address with `index` added, and whether that crossed
    /// a page.
    pub fn index_absolute<B: Bus>(&mut self, bus: &mut B, index: u8) -> (out: (u16, bool))
        requires
            old(bus).valid(),
        ensures
            final(bus).valid(),
            (Operand { addr: out.0, crossed: out.1, cpu: *final(self), bus: final(bus).model() })
                == absolute::<B>(*old(self), old(bus).model(), index),
    {
        let base = self.fetch_word(bus);
        let addr = base.wrapping_add(index as u16);
        (addr, base / 256 != addr / 256)
    }

    /// Indirect-indexed operand address, and whether adding Y crossed a page.
    pub fn index_indirect<B: Bus>(&mut self, bus: &mut B) -> (out: (u16, bool))
        requires
            old(bus).valid(),
        ensures
            final(bus).valid(),
            (Operand { addr: out.0, crossed: out.1, cpu: *final(self), bus: final(bus).model() })
                == indirect_indexed::<B>(*old(self), old(bus).model()),
    {
        let pointer = self.fetch_byte(bus);
        let base = Cpu::read_pointer(bus, pointer as u16, pointer.wrapping_add(1) as u16);
        let addr = base.wrapping_add(self.y as u16);
        (addr, base / 256 != addr / 256)
    }

    /// Reads the byte at `addr`, charging one more cycle where `crossed`.
    pub fn read_operand<B: Bus>(&mut self, bus: &mut B, addr: u16, crossed: bool) -> (val: u8)
        requires
            old(bus).valid(),
        ensures
            final(bus).valid(),
            val == B::peek(old(bus).model(), addr),
            final(bus).model() == B::after_read(old(bus).model(), addr),
            *final(self) == if crossed {
                with_penalty(*old(self), 1)
            } else {
                *old(self)
            },
    {
        if crossed {
            self.add_cycles(1);
        }
        bus.read(addr)
    }

    pub fn fetch_addr_mode_abs<B: Bus>(&mut self, bus: &mut B) -> (addr: u16)
        requires
            old(bus).valid(),
        ensures
            final(bus).valid(),
            resolves(
                addr,
                *final(self),
                final(bus).model(),
                operand::<B>(AddrMode::ABS, *old(self), old(bus).model()),
            ),
    {
        self.index_absolute(bus, 0).0
    }

    pub fn fetch_val_mode_abs<B: Bus>(&mut self, bus: &mut B) -> (val: u8)
        requires
            old(bus).valid(),
        ensures
            final(bus).valid(),
            (Loaded { val, cpu: *final(self), bus: final(bus).model() }) == load::<B>(
                AddrMode::ABS,
                *old(self),
                old(bus).model(),
            ),
    {
        let addr = self.fetch_addr_mode_abs(bus);
        bus.read(addr)
    }

    pub fn fetch_addr_mode_abx<B: Bus>(&mut self, bus: &mut B) -> (addr: u16)
        requires
            old(bus).valid(),
        ensures
            final(bus).valid(),
            resolves(
                addr,
                *final(self),
                final(bus).model(),
                operand::<B>(AddrMode::ABX, *old(self), old(bus).model()),
            ),
    {
        self.index_absolute(bus, self.x).0
    }

    pub fn fetch_val_mode_abx<B: Bus>(&mut self, bus: &mut B) -> (val: u8)
        requires
            old(bus).valid(),
        ensures
            final(bus).valid(),
            (Loaded { val, cpu: *final(self), bus: final(bus).model() }) == load::<B>(
                AddrMode::ABX,
                *old(self),
                old(bus).model(),
            ),
    {
        let (addr, crossed) = self.index_absolute(bus, self.x);
        self.read_operand(bus, addr, crossed)
    }

    pub fn fetch_addr_mode_aby<B: Bus>(&mut self, bus: &mut B) -> (addr: u16)
        requires
            old(bus).valid(),
        ensures
            final(bus).valid(),
            resolves(
                addr,
                *final(self),
                final(bus).model(),
                operand::<B>(AddrMode::ABY, *old(self), old(bus).model()),
            ),
    {
        self.index_absolute(bus, self.y).0
    }

    pub fn fetch_val_mode_aby<B: Bus>(&mut self, bus: &mut B) -> (val: u8)
        requires
            old(bus).valid(),
        ensures
            final(bus).valid(),
            (Loaded { val, cpu: *final(self), bus: final(bus).model() }) == load::<B>(
                AddrMode::ABY,
                *old(self),
                old(bus).model(),
            ),
    {
        let (addr, crossed) = self.index_absolute(bus, self.y);
        self.read_operand(bus, addr, crossed)
    }

    pub fn fetch_addr_mode_zp<B: Bus>(&mut self, bus: &mut B) -> (addr: u16)
        requires
            old(bus).valid(),
        ensures
            final(bus).valid(),
            resolves(
                addr,
                *final(self),
                final(bus).model(),
                operand::<B>(AddrMode::ZP, *old(self), old(bus).model()),
            ),
    {
        self.index_zero_page(bus, 0)
    }

    pub fn fetch_val_mode_zp<B: Bus>(&mut self, bus: &mut B) -> (val: u8)
        requires
            old(bus).valid(),
        ensures
            final(bus).valid(),
            (Loaded { val, cpu: *final(self), bus: final(bus).model() }) == load::<B>(
                AddrMode::ZP,
                *old(self),
                old(bus).model(),
            ),
    {
        let addr = self.fetch_addr_mode_zp(bus);
        bus.read(addr)
    }

    pub fn fetch_addr_mode_zpx<B: Bus>(&mut self, bus: &mut B) -> (addr: u16)
        requires
            old(bus).valid(),
        ensures
            final(bus).valid(),
            resolves(
                addr,
                *final(self),
                final(bus).model(),
                operand::<B>(AddrMode::ZPX, *old(self), old(bus).model()),
            ),
    {
        self.index_zero_page(bus, self.x)
    }

    pub fn fetch_val_mode_zpx<B: Bus>(&mut self, bus: &mut B) -> (val: u8)
        requires
            old(bus).valid(),
        ensures
            final(bus).valid(),
            (Loaded { val, cpu: *final(self), bus: final(bus).model() }) == load::<B>(
                AddrMode::ZPX,
                *old(self),
                old(bus).model(),
            ),
    {
        let addr = self.fetch_addr_mode_zpx(bus);
        bus.read(addr)
    }

    pub fn fetch_addr_mode_zpy<B: Bus>(&mut self, bus: &mut B) -> (addr: u16)
        requires
            old(bus).valid(),
        ensures
            final(bus).valid(),
            resolves(
                addr,
                *final(self),
                final(bus).model(),
                operand::<B>(AddrMode::ZPY, *old(self), old(bus).model()),
            ),
    {
        self.index_zero_page(bus, self.y)
    }

    pub fn fetch_val_mode_zpy<B: Bus>(&mut self, bus: &mut B) -> (val: u8)
        requires
            old(bus).valid(),
        ensures
            final(bus).valid(),
            (Loaded { val, cpu: *final(self), bus: final(bus).model() }) == load::<B>(
                AddrMode::ZPY,
                *old(self),
                old(bus).model(),
            ),
    {
        let addr = self.fetch_addr_mode_zpy(bus);
        bus.read(addr)
    }

    pub fn fetch_addr_mode_izx<B: Bus>(&mut self, bus: &mut B) -> (addr: u16)
        requires
            old(bus).valid(),
        ensures
            final(bus).valid(),
            resolves(
                addr,
                *final(self),
                final(bus).model(),
                operand::<B>(AddrMode::IZX, *old(self), old(bus).model()),
            ),
    {
        let pointer = self.fetch_byte(bus).wrapping_add(self.x);
        Cpu::read_pointer(bus, pointer as u16, pointer.wrapping_add(1) as u16)
    }

    pub fn fetch_val_mode_izx<B: Bus>(&mut self, bus: &mut B) -> (val: u8)
        requires
            old(bus).valid(),
        ensures
            final(bus).valid(),
            (Loaded { val, cpu: *final(self), bus: final(bus).model() }) == load::<B>(
                AddrMode::IZX,
                *old(self),
                old(bus).model(),
            ),
    {
        let addr = self.fetch_addr_mode_izx(bus);
        bus.read(addr)
    }

    pub fn fetch_addr_mode_izy<B: Bus>(&mut self, bus: &mut B) -> (addr: u16)
        requires
            old(bus).valid(),
        ensures
            final(bus).valid(),
            resolves(
                addr,
                *final(self),
                final(bus).model(),
                operand::<B>(AddrMode::IZY, *old(self), old(bus).model()),
            ),
    {
        self.index_indirect(bus).0
    }

    pub fn fetch_val_mode_izy<B: Bus>(&mut self, bus: &mut B) -> (val: u8)
        requires
            old(bus).valid(),
        ensures
            final(bus).valid(),
            (Loaded { val, cpu: *final(self), bus: final(bus).model() }) == load::<B>(
                AddrMode::IZY,
                *old(self),
                old(bus).model(),
            ),
    {
        let (addr, crossed) = self.index_indirect(bus);
        self.read_operand(bus, addr, crossed)
    }

    pub fn fetch_addr_mode_rel<B: Bus>(&mut self, bus: &mut B) -> (addr: u16)
        requires
            old(bus).valid(),
        ensures
            final(bus).valid(),
            resolves(
                addr,
                *final(self),
                final(bus).model(),
                operand::<B>(AddrMode::REL, *old(self), old(bus).model()),
            ),
    {
        let offset = self.fetch_byte(bus);
        if offset < 128 {
            self.pc.wrapping_add(offset as u16)
        } else {
            self.pc.wrapping_sub(256 - offset as u16)
        }
    }

    pub fn fetch_addr_mode_ind<B: Bus>(&mut self, bus: &mut B) -> (addr: u16)
        requires
            old(bus).valid(),
        ensures
            final(bus).valid(),
            resolves(
                addr,
                *final(self),
                final(bus).model(),
                operand::<B>(AddrMode::IND, *old(self), old(bus).model()),
            ),
    {
        let pointer = self.fetch_word(bus);
        let (lo, hi) = split_word(pointer);
        Cpu::read_pointer(bus, pointer, make_word(lo.wrapping_add(1), hi))
    }

    pub fn addr_stack(&self) -> (addr: u16)
        ensures
            addr == stack_addr(self.s),
    {
        STACK_BASE + self.s as u16
    }

    pub fn compute_nz(&mut self)
        ensures
            *final(self) == with_nz(*old(self), old(self).a),
    {
        self.compute_nz_val(self.a);
    }

    pub fn compute_nz_val(&mut self, val: u8)
        ensures
            *final(self) == with_nz(*old(self), val),
    {
        self.n = val >= 0x80;
        self.z = val == 0;
    }

    pub fn stack_push_byte<B: Bus>(&mut self, bus: &mut B, val: u8) -> (result: Result<(), Fault>)
        requires
            old(bus).valid(),
        ensures
            final(bus).valid(),
            step_of(*final(self), final(bus).model(), result) == push::<B>(*old(self), old(bus).model(), val),
    {
        let addr = self.addr_stack();
        if !bus.writable(addr) {
            return Err(Fault::WriteProtected(addr));
        }
        bus.write(addr, val);
        self.s = self.s.wrapping_sub(1);
        Ok(())
    }

    pub fn stack_pop_byte<B: Bus>(&mut self, bus: &mut B) -> (val: u8)
        requires
            old(bus).valid(),
        ensures
            final(bus).valid(),
            (Loaded { val, cpu: *final(self), bus: final(bus).model() }) == pull::<B>(
                *old(self),
                old(bus).model(),
            ),
    {
        self.s = self.s.wrapping_add(1);
        let addr = self.addr_stack();
        bus.read(addr)
    }

    pub fn stack_push_word<B: Bus>(&mut self, bus: &mut B, val: u16) -> (result: Result<(), Fault>)
        requires
            old(bus).valid(),
        ensures
            final(bus).valid(),
            step_of(*final(self), final(bus).model(), result) == push_word::<B>(
                *old(self),
                old(bus).model(),
                val,
            ),
    {
        let (lo, hi) = split_word(val);
        match self.stack_push_byte(bus, hi) {
            Ok(_) => self.stack_push_byte(bus, lo),
            Err(fault) => Err(fault),
        }
    }

    pub fn stack_pop_word<B: Bus>(&mut self, bus: &mut B) -> (val: u16)
        requires
            old(bus).valid(),
        ensures
            final(bus).valid(),
            resolves(val, *final(self), final(bus).model(), pull_word::<B>(*old(self), old(bus).model())),
    {
        let lo = self.stack_pop_byte(bus);
        let hi = self.stack_pop_byte(bus);
        make_word(lo, hi)
    }

    /// The six flags as one value.
    pub fn flags(&self) -> (f: Flags)
        ensures
            f == flags_of(*self),
    {
        Flags { n: self.n, v: self.v, d: self.d, i: self.i, z: self.z, c: self.c }
    }

    /// The status byte as it is pushed, with the break bit as `brk` says.
    pub fn get_status(&self, brk: bool) -> (status: u8)
        ensures
            status == crate::alu::pack_status(flags_of(*self), brk),
    {
        status_value(self.flags(), brk)
    }

    pub fn set_status(&mut self, status: u8)
        ensures
            *final(self) == with_flags(*old(self), crate::alu::unpack_status(status)),
    {
        let f = flags_value(status);
        self.n = f.n;
        self.v = f.v;
        self.d = f.d;
        self.i = f.i;
        self.z = f.z;
        self.c = f.c;
    }

    /// The entry sequence of interrupts and of the break instruction.
    pub fn enter_interrupt<B: Bus>(
        &mut self,
        bus: &mut B,
        vector: u16,
        brk: bool,
        return_pc: u16,
    ) -> (result: Result<(), Fault>)
        requires
            old(bus).valid(),
        ensures
            final(bus).valid(),
            step_of(*final(self), final(bus).model(), result) == interrupt::<B>(
                *old(self),
                old(bus).model(),
                vector,
                brk,
                return_pc,
            ),
    {
        let status = self.get_status(brk);
        match self.stack_push_word(bus, return_pc) {
            Ok(_) => {},
            Err(fault) => {
                return Err(fault);
            },
        }
        match self.stack_push_byte(bus, status) {
            Ok(_) => {},
            Err(fault) => {
                return Err(fault);
            },
        }
        self.pc = bus.read_word(vector);
        self.i = true;
        Ok(())
    }

    /// Enters the non-maskable interrupt handler.
    pub fn nmi<B: Bus>(&mut self, bus: &mut B) -> (result: Result<(), Fault>)
        requires
            old(bus).valid(),
        ensures
            final(bus).valid(),
            step_of(*final(self), final(bus).model(), result) == interrupt::<B>(
                *old(self),
                old(bus).model(),
                NMI_VECTOR,
                false,
                old(self).pc,
            ),
    {
        self.enter_interrupt(bus, NMI_VECTOR, false, self.pc)
    }

    /// Enters the interrupt-request handler.
    pub fn irq<B: Bus>(&mut self, bus: &mut B) -> (result: Result<(), Fault>)
        requires
            old(bus).valid(),
        ensures
            final(bus).valid(),
            step_of(*final(self), final(bus).model(), result) == interrupt::<B>(
                *old(self),
                old(bus).model(),
                IRQ_VECTOR,
                false,
                old(self).pc,
            ),
    {
        self.enter_interrupt(bus, IRQ_VECTOR, false, self.pc)
    }
}

} // verus!
