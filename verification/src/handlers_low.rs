// One handler for each instruction whose first opcode lies below 0x80.
use crate::bus::Bus;
use crate::cpu::{Cpu, Fault};
use crate::cpu_table::{AddrMode, Op};
use crate::isa::{execute, step_of, IRQ_VECTOR};
use vstd::prelude::*;

verus! {

impl Cpu {
    pub fn op_brk<B: Bus>(&mut self, bus: &mut B) -> (result: Result<(), Fault>)
        requires
            old(bus).valid(),
        ensures
            final(bus).valid(),
            step_of(*final(self), final(bus).model(), result) == execute::<B>(
                Op::BRK,
                AddrMode::IMP,
                *old(self),
                old(bus).model(),
            ),
    {
        self.enter_interrupt(bus, IRQ_VECTOR, true, self.pc.wrapping_add(1))
    }

    pub fn op_ora_izx<B: Bus>(&mut self, bus: &mut B) -> (result: Result<(), Fault>)
        requires
            old(bus).valid(),
        ensures
            final(bus).valid(),
            step_of(*final(self), final(bus).model(), result) == execute::<B>(
                Op::ORA,
                AddrMode::IZX,
                *old(self),
                old(bus).model(),
            ),
    {
        let val: u8 = self.fetch_val_mode_izx(bus);
        self.ora(val);
        Ok(())
    }

    pub fn op_hlt<B: Bus>(&mut self, bus: &mut B) -> (result: Result<(), Fault>)
        requires
            old(bus).valid(),
        ensures
            final(bus).valid(),
            step_of(*final(self), final(bus).model(), result) == execute::<B>(
                Op::HLT,
                AddrMode::IMP,
                *old(self),
                old(bus).model(),
            ),
    {
        Err(Fault::Halt)
    }

    pub fn op_slo_izx<B: Bus>(&mut self, bus: &mut B) -> (result: Result<(), Fault>)
        requires
            old(bus).valid(),
        ensures
            final(bus).valid(),
            step_of(*final(self), final(bus).model(), result) == execute::<B>(
                Op::SLO,
                AddrMode::IZX,
                *old(self),
                old(bus).model(),
            ),
    {
        let addr: u16 = self.fetch_addr_mode_izx(bus);
        self.slo(bus, addr)
    }

    pub fn op_nop_zp<B: Bus>(&mut self, bus: &mut B) -> (result: Result<(), Fault>)
        requires
            old(bus).valid(),
        ensures
            final(bus).valid(),
            step_of(*final(self), final(bus).model(), result) == execute::<B>(
                Op::NOP,
                AddrMode::ZP,
                *old(self),
                old(bus).model(),
            ),
    {
        let _val: u8 = self.fetch_val_mode_zp(bus);
        Ok(())
    }

    pub fn op_ora_zp<B: Bus>(&mut self, bus: &mut B) -> (result: Result<(), Fault>)
        requires
            old(bus).valid(),
        ensures
            final(bus).valid(),
            step_of(*final(self), final(bus).model(), result) == execute::<B>(
                Op::ORA,
                AddrMode::ZP,
                *old(self),
                old(bus).model(),
            ),
    {
        let val: u8 = self.fetch_val_mode_zp(bus);
        self.ora(val);
        Ok(())
    }

    pub fn op_asl_zp<B: Bus>(&mut self, bus: &mut B) -> (result: Result<(), Fault>)
        requires
            old(bus).valid(),
        ensures
            final(bus).valid(),
            step_of(*final(self), final(bus).model(), result) == execute::<B>(
                Op::ASL,
                AddrMode::ZP,
                *old(self),
                old(bus).model(),
            ),
    {
        let addr: u16 = self.fetch_addr_mode_zp(bus);
        self.asl_mem(bus, addr)
    }

    pub fn op_slo_zp<B: Bus>(&mut self, bus: &mut B) -> (result: Result<(), Fault>)
        requires
            old(bus).valid(),
        ensures
            final(bus).valid(),
            step_of(*final(self), final(bus).model(), result) == execute::<B>(
                Op::SLO,
                AddrMode::ZP,
                *old(self),
                old(bus).model(),
            ),
    {
        let addr: u16 = self.fetch_addr_mode_zp(bus);
        self.slo(bus, addr)
    }

    pub fn op_php<B: Bus>(&mut self, bus: &mut B) -> (result: Result<(), Fault>)
        requires
            old(bus).valid(),
        ensures
            final(bus).valid(),
            step_of(*final(self), final(bus).model(), result) == execute::<B>(
                Op::PHP,
                AddrMode::IMP,
                *old(self),
                old(bus).model(),
            ),
    {
        let status: u8 = self.get_status(true);
        self.stack_push_byte(bus, status)
    }

    pub fn op_ora_imm<B: Bus>(&mut self, bus: &mut B) -> (result: Result<(), Fault>)
        requires
            old(bus).valid(),
        ensures
            final(bus).valid(),
            step_of(*final(self), final(bus).model(), result) == execute::<B>(
                Op::ORA,
                AddrMode::IMM,
                *old(self),
                old(bus).model(),
            ),
    {
        let val: u8 = self.fetch_byte(bus);
        self.ora(val);
        Ok(())
    }

    pub fn op_asl<B: Bus>(&mut self, bus: &mut B) -> (result: Result<(), Fault>)
        requires
            old(bus).valid(),
        ensures
            final(bus).valid(),
            step_of(*final(self), final(bus).model(), result) == execute::<B>(
                Op::ASL,
                AddrMode::IMP,
                *old(self),
                old(bus).model(),
            ),
    {
        let val: u8 = self.a;
        self.a = self.asl_val(val);
        Ok(())
    }

    pub fn op_anc_imm<B: Bus>(&mut self, bus: &mut B) -> (result: Result<(), Fault>)
        requires
            old(bus).valid(),
        ensures
            final(bus).valid(),
            step_of(*final(self), final(bus).model(), result) == execute::<B>(
                Op::ANC,
                AddrMode::IMM,
                *old(self),
                old(bus).model(),
            ),
    {
        let val: u8 = self.fetch_byte(bus);
        self.anc(val);
        Ok(())
    }

    pub fn op_nop_abs<B: Bus>(&mut self, bus: &mut B) -> (result: Result<(), Fault>)
        requires
            old(bus).valid(),
        ensures
            final(bus).valid(),
            step_of(*final(self), final(bus).model(), result) == execute::<B>(
                Op::NOP,
                AddrMode::ABS,
                *old(self),
                old(bus).model(),
            ),
    {
        let _val: u8 = self.fetch_val_mode_abs(bus);
        Ok(())
    }

    pub fn op_ora_abs<B: Bus>(&mut self, bus: &mut B) -> (result: Result<(), Fault>)
        requires
            old(bus).valid(),
        ensures
            final(bus).valid(),
            step_of(*final(self), final(bus).model(), result) == execute::<B>(
                Op::ORA,
                AddrMode::ABS,
                *old(self),
                old(bus).model(),
            ),
    {
        let val: u8 = self.fetch_val_mode_abs(bus);
        self.ora(val);
        Ok(())
    }

    pub fn op_asl_abs<B: Bus>(&mut self, bus: &mut B) -> (result: Result<(), Fault>)
        requires
            old(bus).valid(),
        ensures
            final(bus).valid(),
            step_of(*final(self), final(bus).model(), result) == execute::<B>(
                Op::ASL,
                AddrMode::ABS,
                *old(self),
                old(bus).model(),
            ),
    {
        let addr: u16 = self.fetch_addr_mode_abs(bus);
        self.asl_mem(bus, addr)
    }

    pub fn op_slo_abs<B: Bus>(&mut self, bus: &mut B) -> (result: Result<(), Fault>)
        requires
            old(bus).valid(),
        ensures
            final(bus).valid(),
            step_of(*final(self), final(bus).model(), result) == execute::<B>(
                Op::SLO,
                AddrMode::ABS,
                *old(self),
                old(bus).model(),
            ),
    {
        let addr: u16 = self.fetch_addr_mode_abs(bus);
        self.slo(bus, addr)
    }

    pub fn op_bpl_rel<B: Bus>(&mut self, bus: &mut B) -> (result: Result<(), Fault>)
        requires
            old(bus).valid(),
        ensures
            final(bus).valid(),
            step_of(*final(self), final(bus).model(), result) == execute::<B>(
                Op::BPL,
                AddrMode::REL,
                *old(self),
                old(bus).model(),
            ),
    {
        let addr: u16 = self.fetch_addr_mode_rel(bus);
        self.bpl(addr);
        Ok(())
    }

    pub fn op_ora_izy<B: Bus>(&mut self, bus: &mut B) -> (result: Result<(), Fault>)
        requires
            old(bus).valid(),
        ensures
            final(bus).valid(),
            step_of(*final(self), final(bus).model(), result) == execute::<B>(
                Op::ORA,
                AddrMode::IZY,
                *old(self),
                old(bus).model(),
            ),
    {
        let val: u8 = self.fetch_val_mode_izy(bus);
        self.ora(val);
        Ok(())
    }

    pub fn op_slo_izy<B: Bus>(&mut self, bus: &mut B) -> (result: Result<(), Fault>)
        requires
            old(bus).valid(),
        ensures
            final(bus).valid(),
            step_of(*final(self), final(bus).model(), result) == execute::<B>(
                Op::SLO,
                AddrMode::IZY,
                *old(self),
                old(bus).model(),
            ),
    {
        let addr: u16 = self.fetch_addr_mode_izy(bus);
        self.slo(bus, addr)
    }

    pub fn op_nop_zpx<B: Bus>(&mut self, bus: &mut B) -> (result: Result<(), Fault>)
        requires
            old(bus).valid(),
        ensures
            final(bus).valid(),
            step_of(*final(self), final(bus).model(), result) == execute::<B>(
                Op::NOP,
                AddrMode::ZPX,
                *old(self),
                old(bus).model(),
            ),
    {
        let _val: u8 = self.fetch_val_mode_zpx(bus);
        Ok(())
    }

    pub fn op_ora_zpx<B: Bus>(&mut self, bus: &mut B) -> (result: Result<(), Fault>)
        requires
            old(bus).valid(),
        ensures
            final(bus).valid(),
            step_of(*final(self), final(bus).model(), result) == execute::<B>(
                Op::ORA,
                AddrMode::ZPX,
                *old(self),
                old(bus).model(),
            ),
    {
        let val: u8 = self.fetch_val_mode_zpx(bus);
        self.ora(val);
        Ok(())
    }

    pub fn op_asl_zpx<B: Bus>(&mut self, bus: &mut B) -> (result: Result<(), Fault>)
        requires
            old(bus).valid(),
        ensures
            final(bus).valid(),
            step_of(*final(self), final(bus).model(), result) == execute::<B>(
                Op::ASL,
                AddrMode::ZPX,
                *old(self),
                old(bus).model(),
            ),
    {
        let addr: u16 = self.fetch_addr_mode_zpx(bus);
        self.asl_mem(bus, addr)
    }

    pub fn op_slo_zpx<B: Bus>(&mut self, bus: &mut B) -> (result: Result<(), Fault>)
        requires
            old(bus).valid(),
        ensures
            final(bus).valid(),
            step_of(*final(self), final(bus).model(), result) == execute::<B>(
                Op::SLO,
                AddrMode::ZPX,
                *old(self),
                old(bus).model(),
            ),
    {
        let addr: u16 = self.fetch_addr_mode_zpx(bus);
        self.slo(bus, addr)
    }

    pub fn op_clc<B: Bus>(&mut self, bus: &mut B) -> (result: Result<(), Fault>)
        requires
            old(bus).valid(),
        ensures
            final(bus).valid(),
            step_of(*final(self), final(bus).model(), result) == execute::<B>(
                Op::CLC,
                AddrMode::IMP,
                *old(self),
                old(bus).model(),
            ),
    {
        self.c = false;
        Ok(())
    }

    pub fn op_ora_aby<B: Bus>(&mut self, bus: &mut B) -> (result: Result<(), Fault>)
        requires
            old(bus).valid(),
        ensures
            final(bus).valid(),
            step_of(*final(self), final(bus).model(), result) == execute::<B>(
                Op::ORA,
                AddrMode::ABY,
                *old(self),
                old(bus).model(),
            ),
    {
        let val: u8 = self.fetch_val_mode_aby(bus);
        self.ora(val);
        Ok(())
    }

    pub fn op_nop<B: Bus>(&mut self, bus: &mut B) -> (result: Result<(), Fault>)
        requires
            old(bus).valid(),
        ensures
            final(bus).valid(),
            step_of(*final(self), final(bus).model(), result) == execute::<B>(
                Op::NOP,
                AddrMode::IMP,
                *old(self),
                old(bus).model(),
            ),
    {
        Ok(())
    }

    pub fn op_slo_aby<B: Bus>(&mut self, bus: &mut B) -> (result: Result<(), Fault>)
        requires
            old(bus).valid(),
        ensures
            final(bus).valid(),
            step_of(*final(self), final(bus).model(), result) == execute::<B>(
                Op::SLO,
                AddrMode::ABY,
                *old(self),
                old(bus).model(),
            ),
    {
        let addr: u16 = self.fetch_addr_mode_aby(bus);
        self.slo(bus, addr)
    }

    pub fn op_nop_abx<B: Bus>(&mut self, bus: &mut B) -> (result: Result<(), Fault>)
        requires
            old(bus).valid(),
        ensures
            final(bus).valid(),
            step_of(*final(self), final(bus).model(), result) == execute::<B>(
                Op::NOP,
                AddrMode::ABX,
                *old(self),
                old(bus).model(),
            ),
    {
        let _val: u8 = self.fetch_val_mode_abx(bus);
        Ok(())
    }

    pub fn op_ora_abx<B: Bus>(&mut self, bus: &mut B) -> (result: Result<(), Fault>)
        requires
            old(bus).valid(),
        ensures
            final(bus).valid(),
            step_of(*final(self), final(bus).model(), result) == execute::<B>(
                Op::ORA,
                AddrMode::ABX,
                *old(self),
                old(bus).model(),
            ),
    {
        let val: u8 = self.fetch_val_mode_abx(bus);
        self.ora(val);
        Ok(())
    }

    pub fn op_asl_abx<B: Bus>(&mut self, bus: &mut B) -> (result: Result<(), Fault>)
        requires
            old(bus).valid(),
        ensures
            final(bus).valid(),
            step_of(*final(self), final(bus).model(), result) == execute::<B>(
                Op::ASL,
                AddrMode::ABX,
                *old(self),
                old(bus).model(),
            ),
    {
        let addr: u16 = self.fetch_addr_mode_abx(bus);
        self.asl_mem(bus, addr)
    }

    pub fn op_slo_abx<B: Bus>(&mut self, bus: &mut B) -> (result: Result<(), Fault>)
        requires
            old(bus).valid(),
        ensures
            final(bus).valid(),
            step_of(*final(self), final(bus).model(), result) == execute::<B>(
                Op::SLO,
                AddrMode::ABX,
                *old(self),
                old(bus).model(),
            ),
    {
        let addr: u16 = self.fetch_addr_mode_abx(bus);
        self.slo(bus, addr)
    }

    pub fn op_jsr_abs<B: Bus>(&mut self, bus: &mut B) -> (result: Result<(), Fault>)
        requires
            old(bus).valid(),
        ensures
            final(bus).valid(),
            step_of(*final(self), final(bus).model(), result) == execute::<B>(
                Op::JSR,
                AddrMode::ABS,
                *old(self),
                old(bus).model(),
            ),
    {
        let addr: u16 = self.fetch_addr_mode_abs(bus);
        match self.stack_push_word(bus, self.pc.wrapping_sub(1)) {
            Ok(_) => {
                self.pc = addr;
                Ok(())
            },
            Err(fault) => Err(fault),
        }
    }

    pub fn op_and_izx<B: Bus>(&mut self, bus: &mut B) -> (result: Result<(), Fault>)
        requires
            old(bus).valid(),
        ensures
            final(bus).valid(),
            step_of(*final(self), final(bus).model(), result) == execute::<B>(
                Op::AND,
                AddrMode::IZX,
                *old(self),
                old(bus).model(),
            ),
    {
        let val: u8 = self.fetch_val_mode_izx(bus);
        self.and(val);
        Ok(())
    }

    pub fn op_rla_izx<B: Bus>(&mut self, bus: &mut B) -> (result: Result<(), Fault>)
        requires
            old(bus).valid(),
        ensures
            final(bus).valid(),
            step_of(*final(self), final(bus).model(), result) == execute::<B>(
                Op::RLA,
                AddrMode::IZX,
                *old(self),
                old(bus).model(),
            ),
    {
        let addr: u16 = self.fetch_addr_mode_izx(bus);
        self.rla(bus, addr)
    }

    pub fn op_bit_zp<B: Bus>(&mut self, bus: &mut B) -> (result: Result<(), Fault>)
        requires
            old(bus).valid(),
        ensures
            final(bus).valid(),
            step_of(*final(self), final(bus).model(), result) == execute::<B>(
                Op::BIT,
                AddrMode::ZP,
                *old(self),
                old(bus).model(),
            ),
    {
        let val: u8 = self.fetch_val_mode_zp(bus);
        self.bit(val);
        Ok(())
    }

    pub fn op_and_zp<B: Bus>(&mut self, bus: &mut B) -> (result: Result<(), Fault>)
        requires
            old(bus).valid(),
        ensures
            final(bus).valid(),
            step_of(*final(self), final(bus).model(), result) == execute::<B>(
                Op::AND,
                AddrMode::ZP,
                *old(self),
                old(bus).model(),
            ),
    {
        let val: u8 = self.fetch_val_mode_zp(bus);
        self.and(val);
        Ok(())
    }

    pub fn op_rol_zp<B: Bus>(&mut self, bus: &mut B) -> (result: Result<(), Fault>)
        requires
            old(bus).valid(),
        ensures
            final(bus).valid(),
            step_of(*final(self), final(bus).model(), result) == execute::<B>(
                Op::ROL,
                AddrMode::ZP,
                *old(self),
                old(bus).model(),
            ),
    {
        let addr: u16 = self.fetch_addr_mode_zp(bus);
        self.rol_mem(bus, addr)
    }

    pub fn op_rla_zp<B: Bus>(&mut self, bus: &mut B) -> (result: Result<(), Fault>)
        requires
            old(bus).valid(),
        ensures
            final(bus).valid(),
            step_of(*final(self), final(bus).model(), result) == execute::<B>(
                Op::RLA,
                AddrMode::ZP,
                *old(self),
                old(bus).model(),
            ),
    {
        let addr: u16 = self.fetch_addr_mode_zp(bus);
        self.rla(bus, addr)
    }

    pub fn op_plp<B: Bus>(&mut self, bus: &mut B) -> (result: Result<(), Fault>)
        requires
            old(bus).valid(),
        ensures
            final(bus).valid(),
            step_of(*final(self), final(bus).model(), result) == execute::<B>(
                Op::PLP,
                AddrMode::IMP,
                *old(self),
                old(bus).model(),
            ),
    {
        let val: u8 = self.stack_pop_byte(bus);
        self.set_status(val);
        Ok(())
    }

    pub fn op_and_imm<B: Bus>(&mut self, bus: &mut B) -> (result: Result<(), Fault>)
        requires
            old(bus).valid(),
        ensures
            final(bus).valid(),
            step_of(*final(self), final(bus).model(), result) == execute::<B>(
                Op::AND,
                AddrMode::IMM,
                *old(self),
                old(bus).model(),
            ),
    {
        let val: u8 = self.fetch_byte(bus);
        self.and(val);
        Ok(())
    }

    pub fn op_rol<B: Bus>(&mut self, bus: &mut B) -> (result: Result<(), Fault>)
        requires
            old(bus).valid(),
        ensures
            final(bus).valid(),
            step_of(*final(self), final(bus).model(), result) == execute::<B>(
                Op::ROL,
                AddrMode::IMP,
                *old(self),
                old(bus).model(),
            ),
    {
        let val: u8 = self.a;
        self.a = self.rol_val(val);
        Ok(())
    }

    pub fn op_bit_abs<B: Bus>(&mut self, bus: &mut B) -> (result: Result<(), Fault>)
        requires
            old(bus).valid(),
        ensures
            final(bus).valid(),
            step_of(*final(self), final(bus).model(), result) == execute::<B>(
                Op::BIT,
                AddrMode::ABS,
                *old(self),
                old(bus).model(),
            ),
    {
        let val: u8 = self.fetch_val_mode_abs(bus);
        self.bit(val);
        Ok(())
    }

    pub fn op_and_abs<B: Bus>(&mut self, bus: &mut B) -> (result: Result<(), Fault>)
        requires
            old(bus).valid(),
        ensures
            final(bus).valid(),
            step_of(*final(self), final(bus).model(), result) == execute::<B>(
                Op::AND,
                AddrMode::ABS,
                *old(self),
                old(bus).model(),
            ),
    {
        let val: u8 = self.fetch_val_mode_abs(bus);
        self.and(val);
        Ok(())
    }

    pub fn op_rol_abs<B: Bus>(&mut self, bus: &mut B) -> (result: Result<(), Fault>)
        requires
            old(bus).valid(),
        ensures
            final(bus).valid(),
            step_of(*final(self), final(bus).model(), result) == execute::<B>(
                Op::ROL,
                AddrMode::ABS,
                *old(self),
                old(bus).model(),
            ),
    {
        let addr: u16 = self.fetch_addr_mode_abs(bus);
        self.rol_mem(bus, addr)
    }

    pub fn op_rla_abs<B: Bus>(&mut self, bus: &mut B) -> (result: Result<(), Fault>)
        requires
            old(bus).valid(),
        ensures
            final(bus).valid(),
            step_of(*final(self), final(bus).model(), result) == execute::<B>(
                Op::RLA,
                AddrMode::ABS,
                *old(self),
                old(bus).model(),
            ),
    {
        let addr: u16 = self.fetch_addr_mode_abs(bus);
        self.rla(bus, addr)
    }

    pub fn op_bmi_rel<B: Bus>(&mut self, bus: &mut B) -> (result: Result<(), Fault>)
        requires
            old(bus).valid(),
        ensures
            final(bus).valid(),
            step_of(*final(self), final(bus).model(), result) == execute::<B>(
                Op::BMI,
                AddrMode::REL,
                *old(self),
                old(bus).model(),
            ),
    {
        let addr: u16 = self.fetch_addr_mode_rel(bus);
        self.bmi(addr);
        Ok(())
    }

    pub fn op_and_izy<B: Bus>(&mut self, bus: &mut B) -> (result: Result<(), Fault>)
        requires
            old(bus).valid(),
        ensures
            final(bus).valid(),
            step_of(*final(self), final(bus).model(), result) == execute::<B>(
                Op::AND,
                AddrMode::IZY,
                *old(self),
                old(bus).model(),
            ),
    {
        let val: u8 = self.fetch_val_mode_izy(bus);
        self.and(val);
        Ok(())
    }

    pub fn op_rla_izy<B: Bus>(&mut self, bus: &mut B) -> (result: Result<(), Fault>)
        requires
            old(bus).valid(),
        ensures
            final(bus).valid(),
            step_of(*final(self), final(bus).model(), result) == execute::<B>(
                Op::RLA,
                AddrMode::IZY,
                *old(self),
                old(bus).model(),
            ),
    {
        let addr: u16 = self.fetch_addr_mode_izy(bus);
        self.rla(bus, addr)
    }

    pub fn op_and_zpx<B: Bus>(&mut self, bus: &mut B) -> (result: Result<(), Fault>)
        requires
            old(bus).valid(),
        ensures
            final(bus).valid(),
            step_of(*final(self), final(bus).model(), result) == execute::<B>(
                Op::AND,
                AddrMode::ZPX,
                *old(self),
                old(bus).model(),
            ),
    {
        let val: u8 = self.fetch_val_mode_zpx(bus);
        self.and(val);
        Ok(())
    }

    pub fn op_rol_zpx<B: Bus>(&mut self, bus: &mut B) -> (result: Result<(), Fault>)
        requires
            old(bus).valid(),
        ensures
            final(bus).valid(),
            step_of(*final(self), final(bus).model(), result) == execute::<B>(
                Op::ROL,
                AddrMode::ZPX,
                *old(self),
                old(bus).model(),
            ),
    {
        let addr: u16 = self.fetch_addr_mode_zpx(bus);
        self.rol_mem(bus, addr)
    }

    pub fn op_rla_zpx<B: Bus>(&mut self, bus: &mut B) -> (result: Result<(), Fault>)
        requires
            old(bus).valid(),
        ensures
            final(bus).valid(),
            step_of(*final(self), final(bus).model(), result) == execute::<B>(
                Op::RLA,
                AddrMode::ZPX,
                *old(self),
                old(bus).model(),
            ),
    {
        let addr: u16 = self.fetch_addr_mode_zpx(bus);
        self.rla(bus, addr)
    }

    pub fn op_sec<B: Bus>(&mut self, bus: &mut B) -> (result: Result<(), Fault>)
        requires
            old(bus).valid(),
        ensures
            final(bus).valid(),
            step_of(*final(self), final(bus).model(), result) == execute::<B>(
                Op::SEC,
                AddrMode::IMP,
                *old(self),
                old(bus).model(),
            ),
    {
        self.c = true;
        Ok(())
    }

    pub fn op_and_aby<B: Bus>(&mut self, bus: &mut B) -> (result: Result<(), Fault>)
        requires
            old(bus).valid(),
        ensures
            final(bus).valid(),
            step_of(*final(self), final(bus).model(), result) == execute::<B>(
                Op::AND,
                AddrMode::ABY,
                *old(self),
                old(bus).model(),
            ),
    {
        let val: u8 = self.fetch_val_mode_aby(bus);
        self.and(val);
        Ok(())
    }

    pub fn op_rla_aby<B: Bus>(&mut self, bus: &mut B) -> (result: Result<(), Fault>)
        requires
            old(bus).valid(),
        ensures
            final(bus).valid(),
            step_of(*final(self), final(bus).model(), result) == execute::<B>(
                Op::RLA,
                AddrMode::ABY,
                *old(self),
                old(bus).model(),
            ),
    {
        let addr: u16 = self.fetch_addr_mode_aby(bus);
        self.rla(bus, addr)
    }

    pub fn op_and_abx<B: Bus>(&mut self, bus: &mut B) -> (result: Result<(), Fault>)
        requires
            old(bus).valid(),
        ensures
            final(bus).valid(),
            step_of(*final(self), final(bus).model(), result) == execute::<B>(
                Op::AND,
                AddrMode::ABX,
                *old(self),
                old(bus).model(),
            ),
    {
        let val: u8 = self.fetch_val_mode_abx(bus);
        self.and(val);
        Ok(())
    }

    pub fn op_rol_abx<B: Bus>(&mut self, bus: &mut B) -> (result: Result<(), Fault>)
        requires
            old(bus).valid(),
        ensures
            final(bus).valid(),
            step_of(*final(self), final(bus).model(), result) == execute::<B>(
                Op::ROL,
                AddrMode::ABX,
                *old(self),
                old(bus).model(),
            ),
    {
        let addr: u16 = self.fetch_addr_mode_abx(bus);
        self.rol_mem(bus, addr)
    }

    pub fn op_rla_abx<B: Bus>(&mut self, bus: &mut B) -> (result: Result<(), Fault>)
        requires
            old(bus).valid(),
        ensures
            final(bus).valid(),
            step_of(*final(self), final(bus).model(), result) == execute::<B>(
                Op::RLA,
                AddrMode::ABX,
                *old(self),
                old(bus).model(),
            ),
    {
        let addr: u16 = self.fetch_addr_mode_abx(bus);
        self.rla(bus, addr)
    }

    pub fn op_rti<B: Bus>(&mut self, bus: &mut B) -> (result: Result<(), Fault>)
        requires
            old(bus).valid(),
        ensures
            final(bus).valid(),
            step_of(*final(self), final(bus).model(), result) == execute::<B>(
                Op::RTI,
                AddrMode::IMP,
                *old(self),
                old(bus).model(),
            ),
    {
        let status: u8 = self.stack_pop_byte(bus);
        self.set_status(status);
        self.pc = self.stack_pop_word(bus);
        Ok(())
    }

    pub fn op_eor_izx<B: Bus>(&mut self, bus: &mut B) -> (result: Result<(), Fault>)
        requires
            old(bus).valid(),
        ensures
            final(bus).valid(),
            step_of(*final(self), final(bus).model(), result) == execute::<B>(
                Op::EOR,
                AddrMode::IZX,
                *old(self),
                old(bus).model(),
            ),
    {
        let val: u8 = self.fetch_val_mode_izx(bus);
        self.eor(val);
        Ok(())
    }

    pub fn op_sre_izx<B: Bus>(&mut self, bus: &mut B) -> (result: Result<(), Fault>)
        requires
            old(bus).valid(),
        ensures
            final(bus).valid(),
            step_of(*final(self), final(bus).model(), result) == execute::<B>(
                Op::SRE,
                AddrMode::IZX,
                *old(self),
                old(bus).model(),
            ),
    {
        let addr: u16 = self.fetch_addr_mode_izx(bus);
        self.sre(bus, addr)
    }

    pub fn op_eor_zp<B: Bus>(&mut self, bus: &mut B) -> (result: Result<(), Fault>)
        requires
            old(bus).valid(),
        ensures
            final(bus).valid(),
            step_of(*final(self), final(bus).model(), result) == execute::<B>(
                Op::EOR,
                AddrMode::ZP,
                *old(self),
                old(bus).model(),
            ),
    {
        let val: u8 = self.fetch_val_mode_zp(bus);
        self.eor(val);
        Ok(())
    }

    pub fn op_lsr_zp<B: Bus>(&mut self, bus: &mut B) -> (result: Result<(), Fault>)
        requires
            old(bus).valid(),
        ensures
            final(bus).valid(),
            step_of(*final(self), final(bus).model(), result) == execute::<B>(
                Op::LSR,
                AddrMode::ZP,
                *old(self),
                old(bus).model(),
            ),
    {
        let addr: u16 = self.fetch_addr_mode_zp(bus);
        self.lsr_mem(bus, addr)
    }

    pub fn op_sre_zp<B: Bus>(&mut self, bus: &mut B) -> (result: Result<(), Fault>)
        requires
            old(bus).valid(),
        ensures
            final(bus).valid(),
            step_of(*final(self), final(bus).model(), result) == execute::<B>(
                Op::SRE,
                AddrMode::ZP,
                *old(self),
                old(bus).model(),
            ),
    {
        let addr: u16 = self.fetch_addr_mode_zp(bus);
        self.sre(bus, addr)
    }

    pub fn op_pha<B: Bus>(&mut self, bus: &mut B) -> (result: Result<(), Fault>)
        requires
            old(bus).valid(),
        ensures
            final(bus).valid(),
            step_of(*final(self), final(bus).model(), result) == execute::<B>(
                Op::PHA,
                AddrMode::IMP,
                *old(self),
                old(bus).model(),
            ),
    {
        self.stack_push_byte(bus, self.a)
    }

    pub fn op_eor_imm<B: Bus>(&mut self, bus: &mut B) -> (result: Result<(), Fault>)
        requires
            old(bus).valid(),
        ensures
            final(bus).valid(),
            step_of(*final(self), final(bus).model(), result) == execute::<B>(
                Op::EOR,
                AddrMode::IMM,
                *old(self),
                old(bus).model(),
            ),
    {
        let val: u8 = self.fetch_byte(bus);
        self.eor(val);
        Ok(())
    }

    pub fn op_lsr<B: Bus>(&mut self, bus: &mut B) -> (result: Result<(), Fault>)
        requires
            old(bus).valid(),
        ensures
            final(bus).valid(),
            step_of(*final(self), final(bus).model(), result) == execute::<B>(
                Op::LSR,
                AddrMode::IMP,
                *old(self),
                old(bus).model(),
            ),
    {
        let val: u8 = self.a;
        self.a = self.lsr_val(val);
        Ok(())
    }

    pub fn op_alr_imm<B: Bus>(&mut self, bus: &mut B) -> (result: Result<(), Fault>)
        requires
            old(bus).valid(),
        ensures
            final(bus).valid(),
            step_of(*final(self), final(bus).model(), result) == execute::<B>(
                Op::ALR,
                AddrMode::IMM,
                *old(self),
                old(bus).model(),
            ),
    {
        let val: u8 = self.fetch_byte(bus);
        self.alr(val);
        Ok(())
    }

    pub fn op_jmp_abs<B: Bus>(&mut self, bus: &mut B) -> (result: Result<(), Fault>)
        requires
            old(bus).valid(),
        ensures
            final(bus).valid(),
            step_of(*final(self), final(bus).model(), result) == execute::<B>(
                Op::JMP,
                AddrMode::ABS,
                *old(self),
                old(bus).model(),
            ),
    {
        let addr: u16 = self.fetch_addr_mode_abs(bus);
        self.jmp(addr);
        Ok(())
    }

    pub fn op_eor_abs<B: Bus>(&mut self, bus: &mut B) -> (result: Result<(), Fault>)
        requires
            old(bus).valid(),
        ensures
            final(bus).valid(),
            step_of(*final(self), final(bus).model(), result) == execute::<B>(
                Op::EOR,
                AddrMode::ABS,
                *old(self),
                old(bus).model(),
            ),
    {
        let val: u8 = self.fetch_val_mode_abs(bus);
        self.eor(val);
        Ok(())
    }

    pub fn op_lsr_abs<B: Bus>(&mut self, bus: &mut B) -> (result: Result<(), Fault>)
        requires
            old(bus).valid(),
        ensures
            final(bus).valid(),
            step_of(*final(self), final(bus).model(), result) == execute::<B>(
                Op::LSR,
                AddrMode::ABS,
                *old(self),
                old(bus).model(),
            ),
    {
        let addr: u16 = self.fetch_addr_mode_abs(bus);
        self.lsr_mem(bus, addr)
    }

    pub fn op_sre_abs<B: Bus>(&mut self, bus: &mut B) -> (result: Result<(), Fault>)
        requires
            old(bus).valid(),
        ensures
            final(bus).valid(),
            step_of(*final(self), final(bus).model(), result) == execute::<B>(
                Op::SRE,
                AddrMode::ABS,
                *old(self),
                old(bus).model(),
            ),
    {
        let addr: u16 = self.fetch_addr_mode_abs(bus);
        self.sre(bus, addr)
    }

    pub fn op_bvc_rel<B: Bus>(&mut self, bus: &mut B) -> (result: Result<(), Fault>)
        requires
            old(bus).valid(),
        ensures
            final(bus).valid(),
            step_of(*final(self), final(bus).model(), result) == execute::<B>(
                Op::BVC,
                AddrMode::REL,
                *old(self),
                old(bus).model(),
            ),
    {
        let addr: u16 = self.fetch_addr_mode_rel(bus);
        self.bvc(addr);
        Ok(())
    }

    pub fn op_eor_izy<B: Bus>(&mut self, bus: &mut B) -> (result: Result<(), Fault>)
        requires
            old(bus).valid(),
        ensures
            final(bus).valid(),
            step_of(*final(self), final(bus).model(), result) == execute::<B>(
                Op::EOR,
                AddrMode::IZY,
                *old(self),
                old(bus).model(),
            ),
    {
        let val: u8 = self.fetch_val_mode_izy(bus);
        self.eor(val);
        Ok(())
    }

    pub fn op_sre_izy<B: Bus>(&mut self, bus: &mut B) -> (result: Result<(), Fault>)
        requires
            old(bus).valid(),
        ensures
            final(bus).valid(),
            step_of(*final(self), final(bus).model(), result) == execute::<B>(
                Op::SRE,
                AddrMode::IZY,
                *old(self),
                old(bus).model(),
            ),
    {
        let addr: u16 = self.fetch_addr_mode_izy(bus);
        self.sre(bus, addr)
    }

    pub fn op_eor_zpx<B: Bus>(&mut self, bus: &mut B) -> (result: Result<(), Fault>)
        requires
            old(bus).valid(),
        ensures
            final(bus).valid(),
            step_of(*final(self), final(bus).model(), result) == execute::<B>(
                Op::EOR,
                AddrMode::ZPX,
                *old(self),
                old(bus).model(),
            ),
    {
        let val: u8 = self.fetch_val_mode_zpx(bus);
        self.eor(val);
        Ok(())
    }

    pub fn op_lsr_zpx<B: Bus>(&mut self, bus: &mut B) -> (result: Result<(), Fault>)
        requires
            old(bus).valid(),
        ensures
            final(bus).valid(),
            step_of(*final(self), final(bus).model(), result) == execute::<B>(
                Op::LSR,
                AddrMode::ZPX,
                *old(self),
                old(bus).model(),
            ),
    {
        let addr: u16 = self.fetch_addr_mode_zpx(bus);
        self.lsr_mem(bus, addr)
    }

    pub fn op_sre_zpx<B: Bus>(&mut self, bus: &mut B) -> (result: Result<(), Fault>)
        requires
            old(bus).valid(),
        ensures
            final(bus).valid(),
            step_of(*final(self), final(bus).model(), result) == execute::<B>(
                Op::SRE,
                AddrMode::ZPX,
                *old(self),
                old(bus).model(),
            ),
    {
        let addr: u16 = self.fetch_addr_mode_zpx(bus);
        self.sre(bus, addr)
    }

    pub fn op_cli<B: Bus>(&mut self, bus: &mut B) -> (result: Result<(), Fault>)
        requires
            old(bus).valid(),
        ensures
            final(bus).valid(),
            step_of(*final(self), final(bus).model(), result) == execute::<B>(
                Op::CLI,
                AddrMode::IMP,
                *old(self),
                old(bus).model(),
            ),
    {
        self.i = false;
        Ok(())
    }

    pub fn op_eor_aby<B: Bus>(&mut self, bus: &mut B) -> (result: Result<(), Fault>)
        requires
            old(bus).valid(),
        ensures
            final(bus).valid(),
            step_of(*final(self), final(bus).model(), result) == execute::<B>(
                Op::EOR,
                AddrMode::ABY,
                *old(self),
                old(bus).model(),
            ),
    {
        let val: u8 = self.fetch_val_mode_aby(bus);
        self.eor(val);
        Ok(())
    }

    pub fn op_sre_aby<B: Bus>(&mut self, bus: &mut B) -> (result: Result<(), Fault>)
        requires
            old(bus).valid(),
        ensures
            final(bus).valid(),
            step_of(*final(self), final(bus).model(), result) == execute::<B>(
                Op::SRE,
                AddrMode::ABY,
                *old(self),
                old(bus).model(),
            ),
    {
        let addr: u16 = self.fetch_addr_mode_aby(bus);
        self.sre(bus, addr)
    }

    pub fn op_eor_abx<B: Bus>(&mut self, bus: &mut B) -> (result: Result<(), Fault>)
        requires
            old(bus).valid(),
        ensures
            final(bus).valid(),
            step_of(*final(self), final(bus).model(), result) == execute::<B>(
                Op::EOR,
                AddrMode::ABX,
                *old(self),
                old(bus).model(),
            ),
    {
        let val: u8 = self.fetch_val_mode_abx(bus);
        self.eor(val);
        Ok(())
    }

    pub fn op_lsr_abx<B: Bus>(&mut self, bus: &mut B) -> (result: Result<(), Fault>)
        requires
            old(bus).valid(),
        ensures
            final(bus).valid(),
            step_of(*final(self), final(bus).model(), result) == execute::<B>(
                Op::LSR,
                AddrMode::ABX,
                *old(self),
                old(bus).model(),
            ),
    {
        let addr: u16 = self.fetch_addr_mode_abx(bus);
        self.lsr_mem(bus, addr)
    }

    pub fn op_sre_abx<B: Bus>(&mut self, bus: &mut B) -> (result: Result<(), Fault>)
        requires
            old(bus).valid(),
        ensures
            final(bus).valid(),
            step_of(*final(self), final(bus).model(), result) == execute::<B>(
                Op::SRE,
                AddrMode::ABX,
                *old(self),
                old(bus).model(),
            ),
    {
        let addr: u16 = self.fetch_addr_mode_abx(bus);
        self.sre(bus, addr)
    }

    pub fn op_rts<B: Bus>(&mut self, bus: &mut B) -> (result: Result<(), Fault>)
        requires
            old(bus).valid(),
        ensures
            final(bus).valid(),
            step_of(*final(self), final(bus).model(), result) == execute::<B>(
                Op::RTS,
                AddrMode::IMP,
                *old(self),
                old(bus).model(),
            ),
    {
        let addr: u16 = self.stack_pop_word(bus);
        self.pc = addr.wrapping_add(1);
        Ok(())
    }

    pub fn op_adc_izx<B: Bus>(&mut self, bus: &mut B) -> (result: Result<(), Fault>)
        requires
            old(bus).valid(),
        ensures
            final(bus).valid(),
            step_of(*final(self), final(bus).model(), result) == execute::<B>(
                Op::ADC,
                AddrMode::IZX,
                *old(self),
                old(bus).model(),
            ),
    {
        let val: u8 = self.fetch_val_mode_izx(bus);
        self.adc(val);
        Ok(())
    }

    pub fn op_rra_izx<B: Bus>(&mut self, bus: &mut B) -> (result: Result<(), Fault>)
        requires
            old(bus).valid(),
        ensures
            final(bus).valid(),
            step_of(*final(self), final(bus).model(), result) == execute::<B>(
                Op::RRA,
                AddrMode::IZX,
                *old(self),
                old(bus).model(),
            ),
    {
        let addr: u16 = self.fetch_addr_mode_izx(bus);
        self.rra(bus, addr)
    }

    pub fn op_adc_zp<B: Bus>(&mut self, bus: &mut B) -> (result: Result<(), Fault>)
        requires
            old(bus).valid(),
        ensures
            final(bus).valid(),
            step_of(*final(self), final(bus).model(), result) == execute::<B>(
                Op::ADC,
                AddrMode::ZP,
                *old(self),
                old(bus).model(),
            ),
    {
        let val: u8 = self.fetch_val_mode_zp(bus);
        self.adc(val);
        Ok(())
    }

    pub fn op_ror_zp<B: Bus>(&mut self, bus: &mut B) -> (result: Result<(), Fault>)
        requires
            old(bus).valid(),
        ensures
            final(bus).valid(),
            step_of(*final(self), final(bus).model(), result) == execute::<B>(
                Op::ROR,
                AddrMode::ZP,
                *old(self),
                old(bus).model(),
            ),
    {
        let addr: u16 = self.fetch_addr_mode_zp(bus);
        self.ror_mem(bus, addr)
    }

    pub fn op_rra_zp<B: Bus>(&mut self, bus: &mut B) -> (result: Result<(), Fault>)
        requires
            old(bus).valid(),
        ensures
            final(bus).valid(),
            step_of(*final(self), final(bus).model(), result) == execute::<B>(
                Op::RRA,
                AddrMode::ZP,
                *old(self),
                old(bus).model(),
            ),
    {
        let addr: u16 = self.fetch_addr_mode_zp(bus);
        self.rra(bus, addr)
    }

    pub fn op_pla<B: Bus>(&mut self, bus: &mut B) -> (result: Result<(), Fault>)
        requires
            old(bus).valid(),
        ensures
            final(bus).valid(),
            step_of(*final(self), final(bus).model(), result) == execute::<B>(
                Op::PLA,
                AddrMode::IMP,
                *old(self),
                old(bus).model(),
            ),
    {
        let val: u8 = self.stack_pop_byte(bus);
        self.a = val;
        self.compute_nz();
        Ok(())
    }

    pub fn op_adc_imm<B: Bus>(&mut self, bus: &mut B) -> (result: Result<(), Fault>)
        requires
            old(bus).valid(),
        ensures
            final(bus).valid(),
            step_of(*final(self), final(bus).model(), result) == execute::<B>(
                Op::ADC,
                AddrMode::IMM,
                *old(self),
                old(bus).model(),
            ),
    {
        let val: u8 = self.fetch_byte(bus);
        self.adc(val);
        Ok(())
    }

    pub fn op_ror<B: Bus>(&mut self, bus: &mut B) -> (result: Result<(), Fault>)
        requires
            old(bus).valid(),
        ensures
            final(bus).valid(),
            step_of(*final(self), final(bus).model(), result) == execute::<B>(
                Op::ROR,
                AddrMode::IMP,
                *old(self),
                old(bus).model(),
            ),
    {
        let val: u8 = self.a;
        self.a = self.ror_val(val);
        Ok(())
    }

    pub fn op_arr_imm<B: Bus>(&mut self, bus: &mut B) -> (result: Result<(), Fault>)
        requires
            old(bus).valid(),
        ensures
            final(bus).valid(),
            step_of(*final(self), final(bus).model(), result) == execute::<B>(
                Op::ARR,
                AddrMode::IMM,
                *old(self),
                old(bus).model(),
            ),
    {
        let val: u8 = self.fetch_byte(bus);
        self.arr(val);
        Ok(())
    }

    pub fn op_jmp_ind<B: Bus>(&mut self, bus: &mut B) -> (result: Result<(), Fault>)
        requires
            old(bus).valid(),
        ensures
            final(bus).valid(),
            step_of(*final(self), final(bus).model(), result) == execute::<B>(
                Op::JMP,
                AddrMode::IND,
                *old(self),
                old(bus).model(),
            ),
    {
        let addr: u16 = self.fetch_addr_mode_ind(bus);
        self.jmp(addr);
        Ok(())
    }

    pub fn op_adc_abs<B: Bus>(&mut self, bus: &mut B) -> (result: Result<(), Fault>)
        requires
            old(bus).valid(),
        ensures
            final(bus).valid(),
            step_of(*final(self), final(bus).model(), result) == execute::<B>(
                Op::ADC,
                AddrMode::ABS,
                *old(self),
                old(bus).model(),
            ),
    {
        let val: u8 = self.fetch_val_mode_abs(bus);
        self.adc(val);
        Ok(())
    }

    pub fn op_ror_abs<B: Bus>(&mut self, bus: &mut B) -> (result: Result<(), Fault>)
        requires
            old(bus).valid(),
        ensures
            final(bus).valid(),
            step_of(*final(self), final(bus).model(), result) == execute::<B>(
                Op::ROR,
                AddrMode::ABS,
                *old(self),
                old(bus).model(),
            ),
    {
        let addr: u16 = self.fetch_addr_mode_abs(bus);
        self.ror_mem(bus, addr)
    }

    pub fn op_rra_abs<B: Bus>(&mut self, bus: &mut B) -> (result: Result<(), Fault>)
        requires
            old(bus).valid(),
        ensures
            final(bus).valid(),
            step_of(*final(self), final(bus).model(), result) == execute::<B>(
                Op::RRA,
                AddrMode::ABS,
                *old(self),
                old(bus).model(),
            ),
    {
        let addr: u16 = self.fetch_addr_mode_abs(bus);
        self.rra(bus, addr)
    }

    pub fn op_bvs_rel<B: Bus>(&mut self, bus: &mut B) -> (result: Result<(), Fault>)
        requires
            old(bus).valid(),
        ensures
            final(bus).valid(),
            step_of(*final(self), final(bus).model(), result) == execute::<B>(
                Op::BVS,
                AddrMode::REL,
                *old(self),
                old(bus).model(),
            ),
    {
        let addr: u16 = self.fetch_addr_mode_rel(bus);
        self.bvs(addr);
        Ok(())
    }

    pub fn op_adc_izy<B: Bus>(&mut self, bus: &mut B) -> (result: Result<(), Fault>)
        requires
            old(bus).valid(),
        ensures
            final(bus).valid(),
            step_of(*final(self), final(bus).model(), result) == execute::<B>(
                Op::ADC,
                AddrMode::IZY,
                *old(self),
                old(bus).model(),
            ),
    {
        let val: u8 = self.fetch_val_mode_izy(bus);
        self.adc(val);
        Ok(())
    }

    pub fn op_rra_izy<B: Bus>(&mut self, bus: &mut B) -> (result: Result<(), Fault>)
        requires
            old(bus).valid(),
        ensures
            final(bus).valid(),
            step_of(*final(self), final(bus).model(), result) == execute::<B>(
                Op::RRA,
                AddrMode::IZY,
                *old(self),
                old(bus).model(),
            ),
    {
        let addr: u16 = self.fetch_addr_mode_izy(bus);
        self.rra(bus, addr)
    }

    pub fn op_adc_zpx<B: Bus>(&mut self, bus: &mut B) -> (result: Result<(), Fault>)
        requires
            old(bus).valid(),
        ensures
            final(bus).valid(),
            step_of(*final(self), final(bus).model(), result) == execute::<B>(
                Op::ADC,
                AddrMode::ZPX,
                *old(self),
                old(bus).model(),
            ),
    {
        let val: u8 = self.fetch_val_mode_zpx(bus);
        self.adc(val);
        Ok(())
    }

    pub fn op_ror_zpx<B: Bus>(&mut self, bus: &mut B) -> (result: Result<(), Fault>)
        requires
            old(bus).valid(),
        ensures
            final(bus).valid(),
            step_of(*final(self), final(bus).model(), result) == execute::<B>(
                Op::ROR,
                AddrMode::ZPX,
                *old(self),
                old(bus).model(),
            ),
    {
        let addr: u16 = self.fetch_addr_mode_zpx(bus);
        self.ror_mem(bus, addr)
    }

    pub fn op_rra_zpx<B: Bus>(&mut self, bus: &mut B) -> (result: Result<(), Fault>)
        requires
            old(bus).valid(),
        ensures
            final(bus).valid(),
            step_of(*final(self), final(bus).model(), result) == execute::<B>(
                Op::RRA,
                AddrMode::ZPX,
                *old(self),
                old(bus).model(),
            ),
    {
        let addr: u16 = self.fetch_addr_mode_zpx(bus);
        self.rra(bus, addr)
    }

    pub fn op_sei<B: Bus>(&mut self, bus: &mut B) -> (result: Result<(), Fault>)
        requires
            old(bus).valid(),
        ensures
            final(bus).valid(),
            step_of(*final(self), final(bus).model(), result) == execute::<B>(
                Op::SEI,
                AddrMode::IMP,
                *old(self),
                old(bus).model(),
            ),
    {
        self.i = true;
        Ok(())
    }

    pub fn op_adc_aby<B: Bus>(&mut self, bus: &mut B) -> (result: Result<(), Fault>)
        requires
            old(bus).valid(),
        ensures
            final(bus).valid(),
            step_of(*final(self), final(bus).model(), result) == execute::<B>(
                Op::ADC,
                AddrMode::ABY,
                *old(self),
                old(bus).model(),
            ),
    {
        let val: u8 = self.fetch_val_mode_aby(bus);
        self.adc(val);
        Ok(())
    }

    pub fn op_rra_aby<B: Bus>(&mut self, bus: &mut B) -> (result: Result<(), Fault>)
        requires
            old(bus).valid(),
        ensures
            final(bus).valid(),
            step_of(*final(self), final(bus).model(), result) == execute::<B>(
                Op::RRA,
                AddrMode::ABY,
                *old(self),
                old(bus).model(),
            ),
    {
        let addr: u16 = self.fetch_addr_mode_aby(bus);
        self.rra(bus, addr)
    }

    pub fn op_adc_abx<B: Bus>(&mut self, bus: &mut B) -> (result: Result<(), Fault>)
        requires
            old(bus).valid(),
        ensures
            final(bus).valid(),
            step_of(*final(self), final(bus).model(), result) == execute::<B>(
                Op::ADC,
                AddrMode::ABX,
                *old(self),
                old(bus).model(),
            ),
    {
        let val: u8 = self.fetch_val_mode_abx(bus);
        self.adc(val);
        Ok(())
    }

    pub fn op_ror_abx<B: Bus>(&mut self, bus: &mut B) -> (result: Result<(), Fault>)
        requires
            old(bus).valid(),
        ensures
            final(bus).valid(),
            step_of(*final(self), final(bus).model(), result) == execute::<B>(
                Op::ROR,
                AddrMode::ABX,
                *old(self),
                old(bus).model(),
            ),
    {
        let addr: u16 = self.fetch_addr_mode_abx(bus);
        self.ror_mem(bus, addr)
    }

    pub fn op_rra_abx<B: Bus>(&mut self, bus: &mut B) -> (result: Result<(), Fault>)
        requires
            old(bus).valid(),
        ensures
            final(bus).valid(),
            step_of(*final(self), final(bus).model(), result) == execute::<B>(
                Op::RRA,
                AddrMode::ABX,
                *old(self),
                old(bus).model(),
            ),
    {
        let addr: u16 = self.fetch_addr_mode_abx(bus);
        self.rra(bus, addr)
    }
}

} // verus!
