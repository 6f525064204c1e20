// What the operations do once their operand is known.
use crate::alu::{
    adc_value, asl_value, dec_value, difference_value, inc_value, lsr_value, rol_value,
    ror_value, sbc_value,
};
use crate::bus::Bus;
use crate::cpu::{Cpu, Fault};
use crate::cpu_table::Op;
use crate::isa::{
    applied, combined, compared, jumped, modified, read_modify_write, step_of, store,
    stored_value,
};
use vstd::prelude::*;

verus! {

impl Cpu {

    pub fn adc(&mut self, val: u8)
        ensures
            *final(self) == applied(Op::ADC, *old(self), val),
    {
        let sum = adc_value(self.a, val, self.c, self.d);
        self.a = sum.val;
        self.c = sum.carry;
        self.v = sum.overflow;
        self.compute_nz();
    }

    pub fn sbc(&mut self, val: u8)
        ensures
            *final(self) == applied(Op::SBC, *old(self), val),
    {
        let sum = sbc_value(self.a, val, self.c, self.d);
        self.a = sum.val;
        self.c = sum.carry;
        self.v = sum.overflow;
        self.compute_nz();
    }

    pub fn and(&mut self, val: u8)
        ensures
            *final(self) == applied(Op::AND, *old(self), val),
    {
        self.a = self.a & val;
        self.compute_nz();
    }

    pub fn ora(&mut self, val: u8)
        ensures
            *final(self) == applied(Op::ORA, *old(self), val),
    {
        self.a = self.a | val;
        self.compute_nz();
    }

    pub fn eor(&mut self, val: u8)
        ensures
            *final(self) == applied(Op::EOR, *old(self), val),
    {
        self.a = self.a ^ val;
        self.compute_nz();
    }

    pub fn lda(&mut self, val: u8)
        ensures
            *final(self) == applied(Op::LDA, *old(self), val),
    {
        self.a = val;
        self.compute_nz();
    }

    pub fn ldx(&mut self, val: u8)
        ensures
            *final(self) == applied(Op::LDX, *old(self), val),
    {
        self.x = val;
        self.compute_nz_val(val);
    }

    pub fn ldy(&mut self, val: u8)
        ensures
            *final(self) == applied(Op::LDY, *old(self), val),
    {
        self.y = val;
        self.compute_nz_val(val);
    }

    /// Undocumented: loads A and X at once.
    pub fn lax(&mut self, val: u8)
        ensures
            *final(self) == applied(Op::LAX, *old(self), val),
    {
        self.a = val;
        self.x = val;
        self.compute_nz_val(val);
    }

    /// Sets N and V from bits 7 and 6 of `val`, and Z from `A & val`.
    pub fn bit(&mut self, val: u8)
        ensures
            *final(self) == applied(Op::BIT, *old(self), val),
    {
        assert((val & 0x80 != 0) == (val >= 128) && (val & 0x40 != 0) == (val / 64 % 2 == 1))
            by (bit_vector);
        self.n = val & 0x80 != 0;
        self.v = val & 0x40 != 0;
        self.z = self.a & val == 0;
    }

    /// Undocumented: AND, then bit 7 of the result goes to the carry.
    pub fn anc(&mut self, val: u8)
        ensures
            *final(self) == applied(Op::ANC, *old(self), val),
    {
        self.a = self.a & val;
        self.compute_nz();
        self.c = self.n;
    }

    /// Undocumented: AND, then shift the accumulator right.
    pub fn alr(&mut self, val: u8)
        ensures
            *final(self) == applied(Op::ALR, *old(self), val),
    {
        let out = lsr_value(self.a & val);
        self.a = out.val;
        self.c = out.carry;
        self.compute_nz();
    }

    /// Undocumented: AND, then rotate the accumulator right; C and V come from bits 6 and 5.
    pub fn arr(&mut self, val: u8)
        ensures
            *final(self) == applied(Op::ARR, *old(self), val),
    {
        let out: u8 = ror_value(self.a & val, self.c).val;
        assert((out & 0x40 != 0) == (out / 64 % 2 == 1) && (out & 0x20 != 0) == (out / 32 % 2 == 1))
            by (bit_vector);
        self.a = out;
        self.c = out & 0x40 != 0;
        self.v = (out & 0x40 != 0) != (out & 0x20 != 0);
        self.compute_nz();
    }

    /// Undocumented: X becomes `(A & X) - val`, with the carry of a comparison.
    pub fn axs(&mut self, val: u8)
        ensures
            *final(self) == applied(Op::AXS, *old(self), val),
    {
        let d = difference_value(self.a & self.x, val);
        self.x = d.val;
        self.c = d.carry;
        self.compute_nz_val(d.val);
    }

    /// Compares `reg` with `val`: C says that `reg` is not below `val`, N and
    /// Z describe the low byte of the difference.
    pub fn compare(&mut self, reg: u8, val: u8)
        ensures
            *final(self) == compared(*old(self), reg, val),
    {
        let d = difference_value(reg, val);
        self.c = d.carry;
        self.compute_nz_val(d.val);
    }

    pub fn jmp(&mut self, addr: u16)
        ensures
            *final(self) == (Cpu { pc: addr, ..*old(self) }),
    {
        self.pc = addr;
    }

    /// Jumps to `addr` if `taken`, and charges the cycles that a taken branch
    /// costs.
    pub fn jump_if(&mut self, taken: bool, addr: u16)
        ensures
            *final(self) == jumped(*old(self), taken, addr),
    {
        if taken {
            if self.pc / 256 != addr / 256 {
                self.add_cycles(2);
            } else {
                self.add_cycles(1);
            }
            self.pc = addr;
        }
    }

    pub fn bpl(&mut self, addr: u16)
        ensures
            *final(self) == jumped(*old(self), !old(self).n, addr),
    {
        self.jump_if(!self.n, addr);
    }

    pub fn bmi(&mut self, addr: u16)
        ensures
            *final(self) == jumped(*old(self), old(self).n, addr),
    {
        self.jump_if(self.n, addr);
    }

    pub fn bvc(&mut self, addr: u16)
        ensures
            *final(self) == jumped(*old(self), !old(self).v, addr),
    {
        self.jump_if(!self.v, addr);
    }

    pub fn bvs(&mut self, addr: u16)
        ensures
            *final(self) == jumped(*old(self), old(self).v, addr),
    {
        self.jump_if(self.v, addr);
    }

    pub fn bcc(&mut self, addr: u16)
        ensures
            *final(self) == jumped(*old(self), !old(self).c, addr),
    {
        self.jump_if(!self.c, addr);
    }

    pub fn bcs(&mut self, addr: u16)
        ensures
            *final(self) == jumped(*old(self), old(self).c, addr),
    {
        self.jump_if(self.c, addr);
    }

    pub fn bne(&mut self, addr: u16)
        ensures
            *final(self) == jumped(*old(self), !old(self).z, addr),
    {
        self.jump_if(!self.z, addr);
    }

    pub fn beq(&mut self, addr: u16)
        ensures
            *final(self) == jumped(*old(self), old(self).z, addr),
    {
        self.jump_if(self.z, addr);
    }

    pub fn sta<B: Bus>(&mut self, bus: &mut B, addr: u16) -> (result: Result<(), Fault>)
        requires
            old(bus).valid(),
        ensures
            final(bus).valid(),
            step_of(*final(self), final(bus).model(), result) == store::<B>(
                *old(self),
                old(bus).model(),
                addr,
                stored_value(Op::STA, *old(self)),
            ),
    {
        self.write_byte(bus, addr, self.a)
    }

    pub fn stx<B: Bus>(&mut self, bus: &mut B, addr: u16) -> (result: Result<(), Fault>)
        requires
            old(bus).valid(),
        ensures
            final(bus).valid(),
            step_of(*final(self), final(bus).model(), result) == store::<B>(
                *old(self),
                old(bus).model(),
                addr,
                stored_value(Op::STX, *old(self)),
            ),
    {
        self.write_byte(bus, addr, self.x)
    }

    pub fn sty<B: Bus>(&mut self, bus: &mut B, addr: u16) -> (result: Result<(), Fault>)
        requires
            old(bus).valid(),
        ensures
            final(bus).valid(),
            step_of(*final(self), final(bus).model(), result) == store::<B>(
                *old(self),
                old(bus).model(),
                addr,
                stored_value(Op::STY, *old(self)),
            ),
    {
        self.write_byte(bus, addr, self.y)
    }

    /// Undocumented: stores `A & X`.
    pub fn sax<B: Bus>(&mut self, bus: &mut B, addr: u16) -> (result: Result<(), Fault>)
        requires
            old(bus).valid(),
        ensures
            final(bus).valid(),
            step_of(*final(self), final(bus).model(), result) == store::<B>(
                *old(self),
                old(bus).model(),
                addr,
                stored_value(Op::SAX, *old(self)),
            ),
    {
        self.write_byte(bus, addr, self.a & self.x)
    }

    /// Writes `val` at `addr` if the bus accepts it.
    pub fn write_byte<B: Bus>(&mut self, bus: &mut B, addr: u16, val: u8) -> (result: Result<
        (),
        Fault,
    >)
        requires
            old(bus).valid(),
        ensures
            final(bus).valid(),
            step_of(*final(self), final(bus).model(), result) == store::<B>(
                *old(self),
                old(bus).model(),
                addr,
                val,
            ),
    {
        if bus.writable(addr) {
            bus.write(addr, val);
            Ok(())
        } else {
            Err(Fault::WriteProtected(addr))
        }
    }

    pub fn asl_val(&mut self, val: u8) -> (out: u8)
        ensures
            (out, *final(self)) == modified(Op::ASL, *old(self), val),
    {
        let shifted = asl_value(val);
        self.c = shifted.carry;
        self.compute_nz_val(shifted.val);
        shifted.val
    }

    pub fn lsr_val(&mut self, val: u8) -> (out: u8)
        ensures
            (out, *final(self)) == modified(Op::LSR, *old(self), val),
    {
        let shifted = lsr_value(val);
        self.c = shifted.carry;
        self.compute_nz_val(shifted.val);
        shifted.val
    }

    pub fn rol_val(&mut self, val: u8) -> (out: u8)
        ensures
            (out, *final(self)) == modified(Op::ROL, *old(self), val),
    {
        let shifted = rol_value(val, self.c);
        self.c = shifted.carry;
        self.compute_nz_val(shifted.val);
        shifted.val
    }

    pub fn ror_val(&mut self, val: u8) -> (out: u8)
        ensures
            (out, *final(self)) == modified(Op::ROR, *old(self), val),
    {
        let shifted = ror_value(val, self.c);
        self.c = shifted.carry;
        self.compute_nz_val(shifted.val);
        shifted.val
    }

    pub fn inc_val(&mut self, val: u8) -> (out: u8)
        ensures
            (out, *final(self)) == modified(Op::INC, *old(self), val),
    {
        let out: u8 = inc_value(val);
        self.compute_nz_val(out);
        out
    }

    pub fn dec_val(&mut self, val: u8) -> (out: u8)
        ensures
            (out, *final(self)) == modified(Op::DEC, *old(self), val),
    {
        let out: u8 = dec_value(val);
        self.compute_nz_val(out);
        out
    }

    /// What the changing operation `op` makes of `val`.
    pub fn modify_val(&mut self, op: Op, val: u8) -> (out: u8)
        ensures
            (out, *final(self)) == modified(op, *old(self), val),
    {
        match op {
            Op::ASL | Op::SLO => self.asl_val(val),
            Op::LSR | Op::SRE => self.lsr_val(val),
            Op::ROL | Op::RLA => self.rol_val(val),
            Op::ROR | Op::RRA => self.ror_val(val),
            Op::INC | Op::ISC => self.inc_val(val),
            Op::DEC | Op::DCP => self.dec_val(val),
            _ => val,
        }
    }

    /// The second half of the undocumented compound operation `op`.
    pub fn combine(&mut self, op: Op, val: u8)
        ensures
            *final(self) == combined(op, *old(self), val),
    {
        match op {
            Op::SLO => self.ora(val),
            Op::RLA => self.and(val),
            Op::SRE => self.eor(val),
            Op::RRA => self.adc(val),
            Op::ISC => self.sbc(val),
            Op::DCP => self.compare(self.a, val),
            _ => {},
        }
    }

    /// Reads the byte at `addr`, changes it as `op` says and writes it back.
    pub fn modify<B: Bus>(&mut self, bus: &mut B, addr: u16, op: Op) -> (result: Result<(), Fault>)
        requires
            old(bus).valid(),
        ensures
            final(bus).valid(),
            step_of(*final(self), final(bus).model(), result) == read_modify_write::<B>(
                op,
                *old(self),
                old(bus).model(),
                addr,
            ),
    {
        let val: u8 = bus.read(addr);
        if !bus.writable(addr) {
            return Err(Fault::WriteProtected(addr));
        }
        let out: u8 = self.modify_val(op, val);
        bus.write(addr, out);
        self.combine(op, out);
        Ok(())
    }

    pub fn asl_mem<B: Bus>(&mut self, bus: &mut B, addr: u16) -> (result: Result<(), Fault>)
        requires
            old(bus).valid(),
        ensures
            final(bus).valid(),
            step_of(*final(self), final(bus).model(), result) == read_modify_write::<B>(
                Op::ASL,
                *old(self),
                old(bus).model(),
                addr,
            ),
    {
        self.modify(bus, addr, Op::ASL)
    }

    pub fn lsr_mem<B: Bus>(&mut self, bus: &mut B, addr: u16) -> (result: Result<(), Fault>)
        requires
            old(bus).valid(),
        ensures
            final(bus).valid(),
            step_of(*final(self), final(bus).model(), result) == read_modify_write::<B>(
                Op::LSR,
                *old(self),
                old(bus).model(),
                addr,
            ),
    {
        self.modify(bus, addr, Op::LSR)
    }

    pub fn rol_mem<B: Bus>(&mut self, bus: &mut B, addr: u16) -> (result: Result<(), Fault>)
        requires
            old(bus).valid(),
        ensures
            final(bus).valid(),
            step_of(*final(self), final(bus).model(), result) == read_modify_write::<B>(
                Op::ROL,
                *old(self),
                old(bus).model(),
                addr,
            ),
    {
        self.modify(bus, addr, Op::ROL)
    }

    pub fn ror_mem<B: Bus>(&mut self, bus: &mut B, addr: u16) -> (result: Result<(), Fault>)
        requires
            old(bus).valid(),
        ensures
            final(bus).valid(),
            step_of(*final(self), final(bus).model(), result) == read_modify_write::<B>(
                Op::ROR,
                *old(self),
                old(bus).model(),
                addr,
            ),
    {
        self.modify(bus, addr, Op::ROR)
    }

    pub fn inc<B: Bus>(&mut self, bus: &mut B, addr: u16) -> (result: Result<(), Fault>)
        requires
            old(bus).valid(),
        ensures
            final(bus).valid(),
            step_of(*final(self), final(bus).model(), result) == read_modify_write::<B>(
                Op::INC,
                *old(self),
                old(bus).model(),
                addr,
            ),
    {
        self.modify(bus, addr, Op::INC)
    }

    pub fn dec<B: Bus>(&mut self, bus: &mut B, addr: u16) -> (result: Result<(), Fault>)
        requires
            old(bus).valid(),
        ensures
            final(bus).valid(),
            step_of(*final(self), final(bus).model(), result) == read_modify_write::<B>(
                Op::DEC,
                *old(self),
                old(bus).model(),
                addr,
            ),
    {
        self.modify(bus, addr, Op::DEC)
    }

    /// Undocumented: shift left in memory, then OR into the accumulator.
    pub fn slo<B: Bus>(&mut self, bus: &mut B, addr: u16) -> (result: Result<(), Fault>)
        requires
            old(bus).valid(),
        ensures
            final(bus).valid(),
            step_of(*final(self), final(bus).model(), result) == read_modify_write::<B>(
                Op::SLO,
                *old(self),
                old(bus).model(),
                addr,
            ),
    {
        self.modify(bus, addr, Op::SLO)
    }

    /// Undocumented: rotate left in memory, then AND into the accumulator.
    pub fn rla<B: Bus>(&mut self, bus: &mut B, addr: u16) -> (result: Result<(), Fault>)
        requires
            old(bus).valid(),
        ensures
            final(bus).valid(),
            step_of(*final(self), final(bus).model(), result) == read_modify_write::<B>(
                Op::RLA,
                *old(self),
                old(bus).model(),
                addr,
            ),
    {
        self.modify(bus, addr, Op::RLA)
    }

    /// Undocumented: shift right in memory, then EOR into the accumulator.
    pub fn sre<B: Bus>(&mut self, bus: &mut B, addr: u16) -> (result: Result<(), Fault>)
        requires
            old(bus).valid(),
        ensures
            final(bus).valid(),
            step_of(*final(self), final(bus).model(), result) == read_modify_write::<B>(
                Op::SRE,
                *old(self),
                old(bus).model(),
                addr,
            ),
    {
        self.modify(bus, addr, Op::SRE)
    }

    /// Undocumented: rotate right in memory, then add to the accumulator.
    pub fn rra<B: Bus>(&mut self, bus: &mut B, addr: u16) -> (result: Result<(), Fault>)
        requires
            old(bus).valid(),
        ensures
            final(bus).valid(),
            step_of(*final(self), final(bus).model(), result) == read_modify_write::<B>(
                Op::RRA,
                *old(self),
                old(bus).model(),
                addr,
            ),
    {
        self.modify(bus, addr, Op::RRA)
    }

    /// Undocumented: decrement in memory, then compare with the accumulator.
    pub fn dcp<B: Bus>(&mut self, bus: &mut B, addr: u16) -> (result: Result<(), Fault>)
        requires
            old(bus).valid(),
        ensures
            final(bus).valid(),
            step_of(*final(self), final(bus).model(), result) == read_modify_write::<B>(
                Op::DCP,
                *old(self),
                old(bus).model(),
                addr,
            ),
    {
        self.modify(bus, addr, Op::DCP)
    }

    /// Undocumented: increment in memory, then subtract from the accumulator.
    pub fn isc<B: Bus>(&mut self, bus: &mut B, addr: u16) -> (result: Result<(), Fault>)
        requires
            old(bus).valid(),
        ensures
            final(bus).valid(),
            step_of(*final(self), final(bus).model(), result) == read_modify_write::<B>(
                Op::ISC,
                *old(self),
                old(bus).model(),
                addr,
            ),
    {
        self.modify(bus, addr, Op::ISC)
    }
}

} // verus!
