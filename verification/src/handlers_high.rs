// One handler for each instruction whose first opcode lies at or above 0x80.
use crate::alu::{dec_value, inc_value};
use crate::bus::Bus;
use crate::cpu::{Cpu, Fault};
use crate::cpu_table::{AddrMode, Op};
use crate::isa::{execute, step_of};
use vstd::prelude::*;

verus! {

impl Cpu {
    pub fn op_nop_imm<B: Bus>(&mut self, bus: &mut B) -> (result: Result<(), Fault>)
        requires
            old(bus).valid(),
        ensures
            final(bus).valid(),
            step_of(*final(self), final(bus).model(), result) == execute::<B>(
                Op::NOP,
                AddrMode::IMM,
                *old(self),
                old(bus).model(),
            ),
    {
        let _val: u8 = self.fetch_byte(bus);
        Ok(())
    }

    pub fn op_sta_izx<B: Bus>(&mut self, bus: &mut B) -> (result: Result<(), Fault>)
        requires
            old(bus).valid(),
        ensures
            final(bus).valid(),
            step_of(*final(self), final(bus).model(), result) == execute::<B>(
                Op::STA,
                AddrMode::IZX,
                *old(self),
                old(bus).model(),
            ),
    {
        let addr: u16 = self.fetch_addr_mode_izx(bus);
        self.sta(bus, addr)
    }

    pub fn op_sax_izx<B: Bus>(&mut self, bus: &mut B) -> (result: Result<(), Fault>)
        requires
            old(bus).valid(),
        ensures
            final(bus).valid(),
            step_of(*final(self), final(bus).model(), result) == execute::<B>(
                Op::SAX,
                AddrMode::IZX,
                *old(self),
                old(bus).model(),
            ),
    {
        let addr: u16 = self.fetch_addr_mode_izx(bus);
        self.sax(bus, addr)
    }

    pub fn op_sty_zp<B: Bus>(&mut self, bus: &mut B) -> (result: Result<(), Fault>)
        requires
            old(bus).valid(),
        ensures
            final(bus).valid(),
            step_of(*final(self), final(bus).model(), result) == execute::<B>(
                Op::STY,
                AddrMode::ZP,
                *old(self),
                old(bus).model(),
            ),
    {
        let addr: u16 = self.fetch_addr_mode_zp(bus);
        self.sty(bus, addr)
    }

    pub fn op_sta_zp<B: Bus>(&mut self, bus: &mut B) -> (result: Result<(), Fault>)
        requires
            old(bus).valid(),
        ensures
            final(bus).valid(),
            step_of(*final(self), final(bus).model(), result) == execute::<B>(
                Op::STA,
                AddrMode::ZP,
                *old(self),
                old(bus).model(),
            ),
    {
        let addr: u16 = self.fetch_addr_mode_zp(bus);
        self.sta(bus, addr)
    }

    pub fn op_stx_zp<B: Bus>(&mut self, bus: &mut B) -> (result: Result<(), Fault>)
        requires
            old(bus).valid(),
        ensures
            final(bus).valid(),
            step_of(*final(self), final(bus).model(), result) == execute::<B>(
                Op::STX,
                AddrMode::ZP,
                *old(self),
                old(bus).model(),
            ),
    {
        let addr: u16 = self.fetch_addr_mode_zp(bus);
        self.stx(bus, addr)
    }

    pub fn op_sax_zp<B: Bus>(&mut self, bus: &mut B) -> (result: Result<(), Fault>)
        requires
            old(bus).valid(),
        ensures
            final(bus).valid(),
            step_of(*final(self), final(bus).model(), result) == execute::<B>(
                Op::SAX,
                AddrMode::ZP,
                *old(self),
                old(bus).model(),
            ),
    {
        let addr: u16 = self.fetch_addr_mode_zp(bus);
        self.sax(bus, addr)
    }

    pub fn op_dey<B: Bus>(&mut self, bus: &mut B) -> (result: Result<(), Fault>)
        requires
            old(bus).valid(),
        ensures
            final(bus).valid(),
            step_of(*final(self), final(bus).model(), result) == execute::<B>(
                Op::DEY,
                AddrMode::IMP,
                *old(self),
                old(bus).model(),
            ),
    {
        self.y = dec_value(self.y);
        self.compute_nz_val(self.y);
        Ok(())
    }

    pub fn op_txa<B: Bus>(&mut self, bus: &mut B) -> (result: Result<(), Fault>)
        requires
            old(bus).valid(),
        ensures
            final(bus).valid(),
            step_of(*final(self), final(bus).model(), result) == execute::<B>(
                Op::TXA,
                AddrMode::IMP,
                *old(self),
                old(bus).model(),
            ),
    {
        self.a = self.x;
        self.compute_nz();
        Ok(())
    }

    pub fn op_xaa_imm<B: Bus>(&mut self, bus: &mut B) -> (result: Result<(), Fault>)
        requires
            old(bus).valid(),
        ensures
            final(bus).valid(),
            step_of(*final(self), final(bus).model(), result) == execute::<B>(
                Op::XAA,
                AddrMode::IMM,
                *old(self),
                old(bus).model(),
            ),
    {
        self.unimpl(bus)
    }

    pub fn op_sty_abs<B: Bus>(&mut self, bus: &mut B) -> (result: Result<(), Fault>)
        requires
            old(bus).valid(),
        ensures
            final(bus).valid(),
            step_of(*final(self), final(bus).model(), result) == execute::<B>(
                Op::STY,
                AddrMode::ABS,
                *old(self),
                old(bus).model(),
            ),
    {
        let addr: u16 = self.fetch_addr_mode_abs(bus);
        self.sty(bus, addr)
    }

    pub fn op_sta_abs<B: Bus>(&mut self, bus: &mut B) -> (result: Result<(), Fault>)
        requires
            old(bus).valid(),
        ensures
            final(bus).valid(),
            step_of(*final(self), final(bus).model(), result) == execute::<B>(
                Op::STA,
                AddrMode::ABS,
                *old(self),
                old(bus).model(),
            ),
    {
        let addr: u16 = self.fetch_addr_mode_abs(bus);
        self.sta(bus, addr)
    }

    pub fn op_stx_abs<B: Bus>(&mut self, bus: &mut B) -> (result: Result<(), Fault>)
        requires
            old(bus).valid(),
        ensures
            final(bus).valid(),
            step_of(*final(self), final(bus).model(), result) == execute::<B>(
                Op::STX,
                AddrMode::ABS,
                *old(self),
                old(bus).model(),
            ),
    {
        let addr: u16 = self.fetch_addr_mode_abs(bus);
        self.stx(bus, addr)
    }

    pub fn op_sax_abs<B: Bus>(&mut self, bus: &mut B) -> (result: Result<(), Fault>)
        requires
            old(bus).valid(),
        ensures
            final(bus).valid(),
            step_of(*final(self), final(bus).model(), result) == execute::<B>(
                Op::SAX,
                AddrMode::ABS,
                *old(self),
                old(bus).model(),
            ),
    {
        let addr: u16 = self.fetch_addr_mode_abs(bus);
        self.sax(bus, addr)
    }

    pub fn op_bcc_rel<B: Bus>(&mut self, bus: &mut B) -> (result: Result<(), Fault>)
        requires
            old(bus).valid(),
        ensures
            final(bus).valid(),
            step_of(*final(self), final(bus).model(), result) == execute::<B>(
                Op::BCC,
                AddrMode::REL,
                *old(self),
                old(bus).model(),
            ),
    {
        let addr: u16 = self.fetch_addr_mode_rel(bus);
        self.bcc(addr);
        Ok(())
    }

    pub fn op_sta_izy<B: Bus>(&mut self, bus: &mut B) -> (result: Result<(), Fault>)
        requires
            old(bus).valid(),
        ensures
            final(bus).valid(),
            step_of(*final(self), final(bus).model(), result) == execute::<B>(
                Op::STA,
                AddrMode::IZY,
                *old(self),
                old(bus).model(),
            ),
    {
        let addr: u16 = self.fetch_addr_mode_izy(bus);
        self.sta(bus, addr)
    }

    pub fn op_ahx_izy<B: Bus>(&mut self, bus: &mut B) -> (result: Result<(), Fault>)
        requires
            old(bus).valid(),
        ensures
            final(bus).valid(),
            step_of(*final(self), final(bus).model(), result) == execute::<B>(
                Op::AHX,
                AddrMode::IZY,
                *old(self),
                old(bus).model(),
            ),
    {
        self.unimpl(bus)
    }

    pub fn op_sty_zpx<B: Bus>(&mut self, bus: &mut B) -> (result: Result<(), Fault>)
        requires
            old(bus).valid(),
        ensures
            final(bus).valid(),
            step_of(*final(self), final(bus).model(), result) == execute::<B>(
                Op::STY,
                AddrMode::ZPX,
                *old(self),
                old(bus).model(),
            ),
    {
        let addr: u16 = self.fetch_addr_mode_zpx(bus);
        self.sty(bus, addr)
    }

    pub fn op_sta_zpx<B: Bus>(&mut self, bus: &mut B) -> (result: Result<(), Fault>)
        requires
            old(bus).valid(),
        ensures
            final(bus).valid(),
            step_of(*final(self), final(bus).model(), result) == execute::<B>(
                Op::STA,
                AddrMode::ZPX,
                *old(self),
                old(bus).model(),
            ),
    {
        let addr: u16 = self.fetch_addr_mode_zpx(bus);
        self.sta(bus, addr)
    }

    pub fn op_stx_zpy<B: Bus>(&mut self, bus: &mut B) -> (result: Result<(), Fault>)
        requires
            old(bus).valid(),
        ensures
            final(bus).valid(),
            step_of(*final(self), final(bus).model(), result) == execute::<B>(
                Op::STX,
                AddrMode::ZPY,
                *old(self),
                old(bus).model(),
            ),
    {
        let addr: u16 = self.fetch_addr_mode_zpy(bus);
        self.stx(bus, addr)
    }

    pub fn op_sax_zpy<B: Bus>(&mut self, bus: &mut B) -> (result: Result<(), Fault>)
        requires
            old(bus).valid(),
        ensures
            final(bus).valid(),
            step_of(*final(self), final(bus).model(), result) == execute::<B>(
                Op::SAX,
                AddrMode::ZPY,
                *old(self),
                old(bus).model(),
            ),
    {
        let addr: u16 = self.fetch_addr_mode_zpy(bus);
        self.sax(bus, addr)
    }

    pub fn op_tya<B: Bus>(&mut self, bus: &mut B) -> (result: Result<(), Fault>)
        requires
            old(bus).valid(),
        ensures
            final(bus).valid(),
            step_of(*final(self), final(bus).model(), result) == execute::<B>(
                Op::TYA,
                AddrMode::IMP,
                *old(self),
                old(bus).model(),
            ),
    {
        self.a = self.y;
        self.compute_nz();
        Ok(())
    }

    pub fn op_sta_aby<B: Bus>(&mut self, bus: &mut B) -> (result: Result<(), Fault>)
        requires
            old(bus).valid(),
        ensures
            final(bus).valid(),
            step_of(*final(self), final(bus).model(), result) == execute::<B>(
                Op::STA,
                AddrMode::ABY,
                *old(self),
                old(bus).model(),
            ),
    {
        let addr: u16 = self.fetch_addr_mode_aby(bus);
        self.sta(bus, addr)
    }

    pub fn op_txs<B: Bus>(&mut self, bus: &mut B) -> (result: Result<(), Fault>)
        requires
            old(bus).valid(),
        ensures
            final(bus).valid(),
            step_of(*final(self), final(bus).model(), result) == execute::<B>(
                Op::TXS,
                AddrMode::IMP,
                *old(self),
                old(bus).model(),
            ),
    {
        self.s = self.x;
        Ok(())
    }

    pub fn op_tas_aby<B: Bus>(&mut self, bus: &mut B) -> (result: Result<(), Fault>)
        requires
            old(bus).valid(),
        ensures
            final(bus).valid(),
            step_of(*final(self), final(bus).model(), result) == execute::<B>(
                Op::TAS,
                AddrMode::ABY,
                *old(self),
                old(bus).model(),
            ),
    {
        self.unimpl(bus)
    }

    pub fn op_shy_abx<B: Bus>(&mut self, bus: &mut B) -> (result: Result<(), Fault>)
        requires
            old(bus).valid(),
        ensures
            final(bus).valid(),
            step_of(*final(self), final(bus).model(), result) == execute::<B>(
                Op::SHY,
                AddrMode::ABX,
                *old(self),
                old(bus).model(),
            ),
    {
        self.unimpl(bus)
    }

    pub fn op_sta_abx<B: Bus>(&mut self, bus: &mut B) -> (result: Result<(), Fault>)
        requires
            old(bus).valid(),
        ensures
            final(bus).valid(),
            step_of(*final(self), final(bus).model(), result) == execute::<B>(
                Op::STA,
                AddrMode::ABX,
                *old(self),
                old(bus).model(),
            ),
    {
        let addr: u16 = self.fetch_addr_mode_abx(bus);
        self.sta(bus, addr)
    }

    pub fn op_shx_aby<B: Bus>(&mut self, bus: &mut B) -> (result: Result<(), Fault>)
        requires
            old(bus).valid(),
        ensures
            final(bus).valid(),
            step_of(*final(self), final(bus).model(), result) == execute::<B>(
                Op::SHX,
                AddrMode::ABY,
                *old(self),
                old(bus).model(),
            ),
    {
        self.unimpl(bus)
    }

    pub fn op_ahx_aby<B: Bus>(&mut self, bus: &mut B) -> (result: Result<(), Fault>)
        requires
            old(bus).valid(),
        ensures
            final(bus).valid(),
            step_of(*final(self), final(bus).model(), result) == execute::<B>(
                Op::AHX,
                AddrMode::ABY,
                *old(self),
                old(bus).model(),
            ),
    {
        self.unimpl(bus)
    }

    pub fn op_ldy_imm<B: Bus>(&mut self, bus: &mut B) -> (result: Result<(), Fault>)
        requires
            old(bus).valid(),
        ensures
            final(bus).valid(),
            step_of(*final(self), final(bus).model(), result) == execute::<B>(
                Op::LDY,
                AddrMode::IMM,
                *old(self),
                old(bus).model(),
            ),
    {
        let val: u8 = self.fetch_byte(bus);
        self.ldy(val);
        Ok(())
    }

    pub fn op_lda_izx<B: Bus>(&mut self, bus: &mut B) -> (result: Result<(), Fault>)
        requires
            old(bus).valid(),
        ensures
            final(bus).valid(),
            step_of(*final(self), final(bus).model(), result) == execute::<B>(
                Op::LDA,
                AddrMode::IZX,
                *old(self),
                old(bus).model(),
            ),
    {
        let val: u8 = self.fetch_val_mode_izx(bus);
        self.lda(val);
        Ok(())
    }

    pub fn op_ldx_imm<B: Bus>(&mut self, bus: &mut B) -> (result: Result<(), Fault>)
        requires
            old(bus).valid(),
        ensures
            final(bus).valid(),
            step_of(*final(self), final(bus).model(), result) == execute::<B>(
                Op::LDX,
                AddrMode::IMM,
                *old(self),
                old(bus).model(),
            ),
    {
        let val: u8 = self.fetch_byte(bus);
        self.ldx(val);
        Ok(())
    }

    pub fn op_lax_izx<B: Bus>(&mut self, bus: &mut B) -> (result: Result<(), Fault>)
        requires
            old(bus).valid(),
        ensures
            final(bus).valid(),
            step_of(*final(self), final(bus).model(), result) == execute::<B>(
                Op::LAX,
                AddrMode::IZX,
                *old(self),
                old(bus).model(),
            ),
    {
        let val: u8 = self.fetch_val_mode_izx(bus);
        self.lax(val);
        Ok(())
    }

    pub fn op_ldy_zp<B: Bus>(&mut self, bus: &mut B) -> (result: Result<(), Fault>)
        requires
            old(bus).valid(),
        ensures
            final(bus).valid(),
            step_of(*final(self), final(bus).model(), result) == execute::<B>(
                Op::LDY,
                AddrMode::ZP,
                *old(self),
                old(bus).model(),
            ),
    {
        let val: u8 = self.fetch_val_mode_zp(bus);
        self.ldy(val);
        Ok(())
    }

    pub fn op_lda_zp<B: Bus>(&mut self, bus: &mut B) -> (result: Result<(), Fault>)
        requires
            old(bus).valid(),
        ensures
            final(bus).valid(),
            step_of(*final(self), final(bus).model(), result) == execute::<B>(
                Op::LDA,
                AddrMode::ZP,
                *old(self),
                old(bus).model(),
            ),
    {
        let val: u8 = self.fetch_val_mode_zp(bus);
        self.lda(val);
        Ok(())
    }

    pub fn op_ldx_zp<B: Bus>(&mut self, bus: &mut B) -> (result: Result<(), Fault>)
        requires
            old(bus).valid(),
        ensures
            final(bus).valid(),
            step_of(*final(self), final(bus).model(), result) == execute::<B>(
                Op::LDX,
                AddrMode::ZP,
                *old(self),
                old(bus).model(),
            ),
    {
        let val: u8 = self.fetch_val_mode_zp(bus);
        self.ldx(val);
        Ok(())
    }

    pub fn op_lax_zp<B: Bus>(&mut self, bus: &mut B) -> (result: Result<(), Fault>)
        requires
            old(bus).valid(),
        ensures
            final(bus).valid(),
            step_of(*final(self), final(bus).model(), result) == execute::<B>(
                Op::LAX,
                AddrMode::ZP,
                *old(self),
                old(bus).model(),
            ),
    {
        let val: u8 = self.fetch_val_mode_zp(bus);
        self.lax(val);
        Ok(())
    }

    pub fn op_tay<B: Bus>(&mut self, bus: &mut B) -> (result: Result<(), Fault>)
        requires
            old(bus).valid(),
        ensures
            final(bus).valid(),
            step_of(*final(self), final(bus).model(), result) == execute::<B>(
                Op::TAY,
                AddrMode::IMP,
                *old(self),
                old(bus).model(),
            ),
    {
        self.y = self.a;
        self.compute_nz_val(self.y);
        Ok(())
    }

    pub fn op_lda_imm<B: Bus>(&mut self, bus: &mut B) -> (result: Result<(), Fault>)
        requires
            old(bus).valid(),
        ensures
            final(bus).valid(),
            step_of(*final(self), final(bus).model(), result) == execute::<B>(
                Op::LDA,
                AddrMode::IMM,
                *old(self),
                old(bus).model(),
            ),
    {
        let val: u8 = self.fetch_byte(bus);
        self.lda(val);
        Ok(())
    }

    pub fn op_tax<B: Bus>(&mut self, bus: &mut B) -> (result: Result<(), Fault>)
        requires
            old(bus).valid(),
        ensures
            final(bus).valid(),
            step_of(*final(self), final(bus).model(), result) == execute::<B>(
                Op::TAX,
                AddrMode::IMP,
                *old(self),
                old(bus).model(),
            ),
    {
        self.x = self.a;
        self.compute_nz_val(self.x);
        Ok(())
    }

    pub fn op_lax_imm<B: Bus>(&mut self, bus: &mut B) -> (result: Result<(), Fault>)
        requires
            old(bus).valid(),
        ensures
            final(bus).valid(),
            step_of(*final(self), final(bus).model(), result) == execute::<B>(
                Op::LAX,
                AddrMode::IMM,
                *old(self),
                old(bus).model(),
            ),
    {
        let val: u8 = self.fetch_byte(bus);
        self.lax(val);
        Ok(())
    }

    pub fn op_ldy_abs<B: Bus>(&mut self, bus: &mut B) -> (result: Result<(), Fault>)
        requires
            old(bus).valid(),
        ensures
            final(bus).valid(),
            step_of(*final(self), final(bus).model(), result) == execute::<B>(
                Op::LDY,
                AddrMode::ABS,
                *old(self),
                old(bus).model(),
            ),
    {
        let val: u8 = self.fetch_val_mode_abs(bus);
        self.ldy(val);
        Ok(())
    }

    pub fn op_lda_abs<B: Bus>(&mut self, bus: &mut B) -> (result: Result<(), Fault>)
        requires
            old(bus).valid(),
        ensures
            final(bus).valid(),
            step_of(*final(self), final(bus).model(), result) == execute::<B>(
                Op::LDA,
                AddrMode::ABS,
                *old(self),
                old(bus).model(),
            ),
    {
        let val: u8 = self.fetch_val_mode_abs(bus);
        self.lda(val);
        Ok(())
    }

    pub fn op_ldx_abs<B: Bus>(&mut self, bus: &mut B) -> (result: Result<(), Fault>)
        requires
            old(bus).valid(),
        ensures
            final(bus).valid(),
            step_of(*final(self), final(bus).model(), result) == execute::<B>(
                Op::LDX,
                AddrMode::ABS,
                *old(self),
                old(bus).model(),
            ),
    {
        let val: u8 = self.fetch_val_mode_abs(bus);
        self.ldx(val);
        Ok(())
    }

    pub fn op_lax_abs<B: Bus>(&mut self, bus: &mut B) -> (result: Result<(), Fault>)
        requires
            old(bus).valid(),
        ensures
            final(bus).valid(),
            step_of(*final(self), final(bus).model(), result) == execute::<B>(
                Op::LAX,
                AddrMode::ABS,
                *old(self),
                old(bus).model(),
            ),
    {
        let val: u8 = self.fetch_val_mode_abs(bus);
        self.lax(val);
        Ok(())
    }

    pub fn op_bcs_rel<B: Bus>(&mut self, bus: &mut B) -> (result: Result<(), Fault>)
        requires
            old(bus).valid(),
        ensures
            final(bus).valid(),
            step_of(*final(self), final(bus).model(), result) == execute::<B>(
                Op::BCS,
                AddrMode::REL,
                *old(self),
                old(bus).model(),
            ),
    {
        let addr: u16 = self.fetch_addr_mode_rel(bus);
        self.bcs(addr);
        Ok(())
    }

    pub fn op_lda_izy<B: Bus>(&mut self, bus: &mut B) -> (result: Result<(), Fault>)
        requires
            old(bus).valid(),
        ensures
            final(bus).valid(),
            step_of(*final(self), final(bus).model(), result) == execute::<B>(
                Op::LDA,
                AddrMode::IZY,
                *old(self),
                old(bus).model(),
            ),
    {
        let val: u8 = self.fetch_val_mode_izy(bus);
        self.lda(val);
        Ok(())
    }

    pub fn op_lax_izy<B: Bus>(&mut self, bus: &mut B) -> (result: Result<(), Fault>)
        requires
            old(bus).valid(),
        ensures
            final(bus).valid(),
            step_of(*final(self), final(bus).model(), result) == execute::<B>(
                Op::LAX,
                AddrMode::IZY,
                *old(self),
                old(bus).model(),
            ),
    {
        let val: u8 = self.fetch_val_mode_izy(bus);
        self.lax(val);
        Ok(())
    }

    pub fn op_ldy_zpx<B: Bus>(&mut self, bus: &mut B) -> (result: Result<(), Fault>)
        requires
            old(bus).valid(),
        ensures
            final(bus).valid(),
            step_of(*final(self), final(bus).model(), result) == execute::<B>(
                Op::LDY,
                AddrMode::ZPX,
                *old(self),
                old(bus).model(),
            ),
    {
        let val: u8 = self.fetch_val_mode_zpx(bus);
        self.ldy(val);
        Ok(())
    }

    pub fn op_lda_zpx<B: Bus>(&mut self, bus: &mut B) -> (result: Result<(), Fault>)
        requires
            old(bus).valid(),
        ensures
            final(bus).valid(),
            step_of(*final(self), final(bus).model(), result) == execute::<B>(
                Op::LDA,
                AddrMode::ZPX,
                *old(self),
                old(bus).model(),
            ),
    {
        let val: u8 = self.fetch_val_mode_zpx(bus);
        self.lda(val);
        Ok(())
    }

    pub fn op_ldx_zpy<B: Bus>(&mut self, bus: &mut B) -> (result: Result<(), Fault>)
        requires
            old(bus).valid(),
        ensures
            final(bus).valid(),
            step_of(*final(self), final(bus).model(), result) == execute::<B>(
                Op::LDX,
                AddrMode::ZPY,
                *old(self),
                old(bus).model(),
            ),
    {
        let val: u8 = self.fetch_val_mode_zpy(bus);
        self.ldx(val);
        Ok(())
    }

    pub fn op_lax_zpy<B: Bus>(&mut self, bus: &mut B) -> (result: Result<(), Fault>)
        requires
            old(bus).valid(),
        ensures
            final(bus).valid(),
            step_of(*final(self), final(bus).model(), result) == execute::<B>(
                Op::LAX,
                AddrMode::ZPY,
                *old(self),
                old(bus).model(),
            ),
    {
        let val: u8 = self.fetch_val_mode_zpy(bus);
        self.lax(val);
        Ok(())
    }

    pub fn op_clv<B: Bus>(&mut self, bus: &mut B) -> (result: Result<(), Fault>)
        requires
            old(bus).valid(),
        ensures
            final(bus).valid(),
            step_of(*final(self), final(bus).model(), result) == execute::<B>(
                Op::CLV,
                AddrMode::IMP,
                *old(self),
                old(bus).model(),
            ),
    {
        self.v = false;
        Ok(())
    }

    pub fn op_lda_aby<B: Bus>(&mut self, bus: &mut B) -> (result: Result<(), Fault>)
        requires
            old(bus).valid(),
        ensures
            final(bus).valid(),
            step_of(*final(self), final(bus).model(), result) == execute::<B>(
                Op::LDA,
                AddrMode::ABY,
                *old(self),
                old(bus).model(),
            ),
    {
        let val: u8 = self.fetch_val_mode_aby(bus);
        self.lda(val);
        Ok(())
    }

    pub fn op_tsx<B: Bus>(&mut self, bus: &mut B) -> (result: Result<(), Fault>)
        requires
            old(bus).valid(),
        ensures
            final(bus).valid(),
            step_of(*final(self), final(bus).model(), result) == execute::<B>(
                Op::TSX,
                AddrMode::IMP,
                *old(self),
                old(bus).model(),
            ),
    {
        self.x = self.s;
        self.compute_nz_val(self.x);
        Ok(())
    }

    pub fn op_las_aby<B: Bus>(&mut self, bus: &mut B) -> (result: Result<(), Fault>)
        requires
            old(bus).valid(),
        ensures
            final(bus).valid(),
            step_of(*final(self), final(bus).model(), result) == execute::<B>(
                Op::LAS,
                AddrMode::ABY,
                *old(self),
                old(bus).model(),
            ),
    {
        self.unimpl(bus)
    }

    pub fn op_ldy_abx<B: Bus>(&mut self, bus: &mut B) -> (result: Result<(), Fault>)
        requires
            old(bus).valid(),
        ensures
            final(bus).valid(),
            step_of(*final(self), final(bus).model(), result) == execute::<B>(
                Op::LDY,
                AddrMode::ABX,
                *old(self),
                old(bus).model(),
            ),
    {
        let val: u8 = self.fetch_val_mode_abx(bus);
        self.ldy(val);
        Ok(())
    }

    pub fn op_lda_abx<B: Bus>(&mut self, bus: &mut B) -> (result: Result<(), Fault>)
        requires
            old(bus).valid(),
        ensures
            final(bus).valid(),
            step_of(*final(self), final(bus).model(), result) == execute::<B>(
                Op::LDA,
                AddrMode::ABX,
                *old(self),
                old(bus).model(),
            ),
    {
        let val: u8 = self.fetch_val_mode_abx(bus);
        self.lda(val);
        Ok(())
    }

    pub fn op_ldx_aby<B: Bus>(&mut self, bus: &mut B) -> (result: Result<(), Fault>)
        requires
            old(bus).valid(),
        ensures
            final(bus).valid(),
            step_of(*final(self), final(bus).model(), result) == execute::<B>(
                Op::LDX,
                AddrMode::ABY,
                *old(self),
                old(bus).model(),
            ),
    {
        let val: u8 = self.fetch_val_mode_aby(bus);
        self.ldx(val);
        Ok(())
    }

    pub fn op_lax_aby<B: Bus>(&mut self, bus: &mut B) -> (result: Result<(), Fault>)
        requires
            old(bus).valid(),
        ensures
            final(bus).valid(),
            step_of(*final(self), final(bus).model(), result) == execute::<B>(
                Op::LAX,
                AddrMode::ABY,
                *old(self),
                old(bus).model(),
            ),
    {
        let val: u8 = self.fetch_val_mode_aby(bus);
        self.lax(val);
        Ok(())
    }

    pub fn op_cpy_imm<B: Bus>(&mut self, bus: &mut B) -> (result: Result<(), Fault>)
        requires
            old(bus).valid(),
        ensures
            final(bus).valid(),
            step_of(*final(self), final(bus).model(), result) == execute::<B>(
                Op::CPY,
                AddrMode::IMM,
                *old(self),
                old(bus).model(),
            ),
    {
        let val: u8 = self.fetch_byte(bus);
        self.compare(self.y, val);
        Ok(())
    }

    pub fn op_cmp_izx<B: Bus>(&mut self, bus: &mut B) -> (result: Result<(), Fault>)
        requires
            old(bus).valid(),
        ensures
            final(bus).valid(),
            step_of(*final(self), final(bus).model(), result) == execute::<B>(
                Op::CMP,
                AddrMode::IZX,
                *old(self),
                old(bus).model(),
            ),
    {
        let val: u8 = self.fetch_val_mode_izx(bus);
        self.compare(self.a, val);
        Ok(())
    }

    pub fn op_dcp_izx<B: Bus>(&mut self, bus: &mut B) -> (result: Result<(), Fault>)
        requires
            old(bus).valid(),
        ensures
            final(bus).valid(),
            step_of(*final(self), final(bus).model(), result) == execute::<B>(
                Op::DCP,
                AddrMode::IZX,
                *old(self),
                old(bus).model(),
            ),
    {
        let addr: u16 = self.fetch_addr_mode_izx(bus);
        self.dcp(bus, addr)
    }

    pub fn op_cpy_zp<B: Bus>(&mut self, bus: &mut B) -> (result: Result<(), Fault>)
        requires
            old(bus).valid(),
        ensures
            final(bus).valid(),
            step_of(*final(self), final(bus).model(), result) == execute::<B>(
                Op::CPY,
                AddrMode::ZP,
                *old(self),
                old(bus).model(),
            ),
    {
        let val: u8 = self.fetch_val_mode_zp(bus);
        self.compare(self.y, val);
        Ok(())
    }

    pub fn op_cmp_zp<B: Bus>(&mut self, bus: &mut B) -> (result: Result<(), Fault>)
        requires
            old(bus).valid(),
        ensures
            final(bus).valid(),
            step_of(*final(self), final(bus).model(), result) == execute::<B>(
                Op::CMP,
                AddrMode::ZP,
                *old(self),
                old(bus).model(),
            ),
    {
        let val: u8 = self.fetch_val_mode_zp(bus);
        self.compare(self.a, val);
        Ok(())
    }

    pub fn op_dec_zp<B: Bus>(&mut self, bus: &mut B) -> (result: Result<(), Fault>)
        requires
            old(bus).valid(),
        ensures
            final(bus).valid(),
            step_of(*final(self), final(bus).model(), result) == execute::<B>(
                Op::DEC,
                AddrMode::ZP,
                *old(self),
                old(bus).model(),
            ),
    {
        let addr: u16 = self.fetch_addr_mode_zp(bus);
        self.dec(bus, addr)
    }

    pub fn op_dcp_zp<B: Bus>(&mut self, bus: &mut B) -> (result: Result<(), Fault>)
        requires
            old(bus).valid(),
        ensures
            final(bus).valid(),
            step_of(*final(self), final(bus).model(), result) == execute::<B>(
                Op::DCP,
                AddrMode::ZP,
                *old(self),
                old(bus).model(),
            ),
    {
        let addr: u16 = self.fetch_addr_mode_zp(bus);
        self.dcp(bus, addr)
    }

    pub fn op_iny<B: Bus>(&mut self, bus: &mut B) -> (result: Result<(), Fault>)
        requires
            old(bus).valid(),
        ensures
            final(bus).valid(),
            step_of(*final(self), final(bus).model(), result) == execute::<B>(
                Op::INY,
                AddrMode::IMP,
                *old(self),
                old(bus).model(),
            ),
    {
        self.y = inc_value(self.y);
        self.compute_nz_val(self.y);
        Ok(())
    }

    pub fn op_cmp_imm<B: Bus>(&mut self, bus: &mut B) -> (result: Result<(), Fault>)
        requires
            old(bus).valid(),
        ensures
            final(bus).valid(),
            step_of(*final(self), final(bus).model(), result) == execute::<B>(
                Op::CMP,
                AddrMode::IMM,
                *old(self),
                old(bus).model(),
            ),
    {
        let val: u8 = self.fetch_byte(bus);
        self.compare(self.a, val);
        Ok(())
    }

    pub fn op_dex<B: Bus>(&mut self, bus: &mut B) -> (result: Result<(), Fault>)
        requires
            old(bus).valid(),
        ensures
            final(bus).valid(),
            step_of(*final(self), final(bus).model(), result) == execute::<B>(
                Op::DEX,
                AddrMode::IMP,
                *old(self),
                old(bus).model(),
            ),
    {
        self.x = dec_value(self.x);
        self.compute_nz_val(self.x);
        Ok(())
    }

    pub fn op_axs_imm<B: Bus>(&mut self, bus: &mut B) -> (result: Result<(), Fault>)
        requires
            old(bus).valid(),
        ensures
            final(bus).valid(),
            step_of(*final(self), final(bus).model(), result) == execute::<B>(
                Op::AXS,
                AddrMode::IMM,
                *old(self),
                old(bus).model(),
            ),
    {
        let val: u8 = self.fetch_byte(bus);
        self.axs(val);
        Ok(())
    }

    pub fn op_cpy_abs<B: Bus>(&mut self, bus: &mut B) -> (result: Result<(), Fault>)
        requires
            old(bus).valid(),
        ensures
            final(bus).valid(),
            step_of(*final(self), final(bus).model(), result) == execute::<B>(
                Op::CPY,
                AddrMode::ABS,
                *old(self),
                old(bus).model(),
            ),
    {
        let val: u8 = self.fetch_val_mode_abs(bus);
        self.compare(self.y, val);
        Ok(())
    }

    pub fn op_cmp_abs<B: Bus>(&mut self, bus: &mut B) -> (result: Result<(), Fault>)
        requires
            old(bus).valid(),
        ensures
            final(bus).valid(),
            step_of(*final(self), final(bus).model(), result) == execute::<B>(
                Op::CMP,
                AddrMode::ABS,
                *old(self),
                old(bus).model(),
            ),
    {
        let val: u8 = self.fetch_val_mode_abs(bus);
        self.compare(self.a, val);
        Ok(())
    }

    pub fn op_dec_abs<B: Bus>(&mut self, bus: &mut B) -> (result: Result<(), Fault>)
        requires
            old(bus).valid(),
        ensures
            final(bus).valid(),
            step_of(*final(self), final(bus).model(), result) == execute::<B>(
                Op::DEC,
                AddrMode::ABS,
                *old(self),
                old(bus).model(),
            ),
    {
        let addr: u16 = self.fetch_addr_mode_abs(bus);
        self.dec(bus, addr)
    }

    pub fn op_dcp_abs<B: Bus>(&mut self, bus: &mut B) -> (result: Result<(), Fault>)
        requires
            old(bus).valid(),
        ensures
            final(bus).valid(),
            step_of(*final(self), final(bus).model(), result) == execute::<B>(
                Op::DCP,
                AddrMode::ABS,
                *old(self),
                old(bus).model(),
            ),
    {
        let addr: u16 = self.fetch_addr_mode_abs(bus);
        self.dcp(bus, addr)
    }

    pub fn op_bne_rel<B: Bus>(&mut self, bus: &mut B) -> (result: Result<(), Fault>)
        requires
            old(bus).valid(),
        ensures
            final(bus).valid(),
            step_of(*final(self), final(bus).model(), result) == execute::<B>(
                Op::BNE,
                AddrMode::REL,
                *old(self),
                old(bus).model(),
            ),
    {
        let addr: u16 = self.fetch_addr_mode_rel(bus);
        self.bne(addr);
        Ok(())
    }

    pub fn op_cmp_izy<B: Bus>(&mut self, bus: &mut B) -> (result: Result<(), Fault>)
        requires
            old(bus).valid(),
        ensures
            final(bus).valid(),
            step_of(*final(self), final(bus).model(), result) == execute::<B>(
                Op::CMP,
                AddrMode::IZY,
                *old(self),
                old(bus).model(),
            ),
    {
        let val: u8 = self.fetch_val_mode_izy(bus);
        self.compare(self.a, val);
        Ok(())
    }

    pub fn op_dcp_izy<B: Bus>(&mut self, bus: &mut B) -> (result: Result<(), Fault>)
        requires
            old(bus).valid(),
        ensures
            final(bus).valid(),
            step_of(*final(self), final(bus).model(), result) == execute::<B>(
                Op::DCP,
                AddrMode::IZY,
                *old(self),
                old(bus).model(),
            ),
    {
        let addr: u16 = self.fetch_addr_mode_izy(bus);
        self.dcp(bus, addr)
    }

    pub fn op_cmp_zpx<B: Bus>(&mut self, bus: &mut B) -> (result: Result<(), Fault>)
        requires
            old(bus).valid(),
        ensures
            final(bus).valid(),
            step_of(*final(self), final(bus).model(), result) == execute::<B>(
                Op::CMP,
                AddrMode::ZPX,
                *old(self),
                old(bus).model(),
            ),
    {
        let val: u8 = self.fetch_val_mode_zpx(bus);
        self.compare(self.a, val);
        Ok(())
    }

    pub fn op_dec_zpx<B: Bus>(&mut self, bus: &mut B) -> (result: Result<(), Fault>)
        requires
            old(bus).valid(),
        ensures
            final(bus).valid(),
            step_of(*final(self), final(bus).model(), result) == execute::<B>(
                Op::DEC,
                AddrMode::ZPX,
                *old(self),
                old(bus).model(),
            ),
    {
        let addr: u16 = self.fetch_addr_mode_zpx(bus);
        self.dec(bus, addr)
    }

    pub fn op_dcp_zpx<B: Bus>(&mut self, bus: &mut B) -> (result: Result<(), Fault>)
        requires
            old(bus).valid(),
        ensures
            final(bus).valid(),
            step_of(*final(self), final(bus).model(), result) == execute::<B>(
                Op::DCP,
                AddrMode::ZPX,
                *old(self),
                old(bus).model(),
            ),
    {
        let addr: u16 = self.fetch_addr_mode_zpx(bus);
        self.dcp(bus, addr)
    }

    pub fn op_cld<B: Bus>(&mut self, bus: &mut B) -> (result: Result<(), Fault>)
        requires
            old(bus).valid(),
        ensures
            final(bus).valid(),
            step_of(*final(self), final(bus).model(), result) == execute::<B>(
                Op::CLD,
                AddrMode::IMP,
                *old(self),
                old(bus).model(),
            ),
    {
        self.d = false;
        Ok(())
    }

    pub fn op_cmp_aby<B: Bus>(&mut self, bus: &mut B) -> (result: Result<(), Fault>)
        requires
            old(bus).valid(),
        ensures
            final(bus).valid(),
            step_of(*final(self), final(bus).model(), result) == execute::<B>(
                Op::CMP,
                AddrMode::ABY,
                *old(self),
                old(bus).model(),
            ),
    {
        let val: u8 = self.fetch_val_mode_aby(bus);
        self.compare(self.a, val);
        Ok(())
    }

    pub fn op_dcp_aby<B: Bus>(&mut self, bus: &mut B) -> (result: Result<(), Fault>)
        requires
            old(bus).valid(),
        ensures
            final(bus).valid(),
            step_of(*final(self), final(bus).model(), result) == execute::<B>(
                Op::DCP,
                AddrMode::ABY,
                *old(self),
                old(bus).model(),
            ),
    {
        let addr: u16 = self.fetch_addr_mode_aby(bus);
        self.dcp(bus, addr)
    }

    pub fn op_cmp_abx<B: Bus>(&mut self, bus: &mut B) -> (result: Result<(), Fault>)
        requires
            old(bus).valid(),
        ensures
            final(bus).valid(),
            step_of(*final(self), final(bus).model(), result) == execute::<B>(
                Op::CMP,
                AddrMode::ABX,
                *old(self),
                old(bus).model(),
            ),
    {
        let val: u8 = self.fetch_val_mode_abx(bus);
        self.compare(self.a, val);
        Ok(())
    }

    pub fn op_dec_abx<B: Bus>(&mut self, bus: &mut B) -> (result: Result<(), Fault>)
        requires
            old(bus).valid(),
        ensures
            final(bus).valid(),
            step_of(*final(self), final(bus).model(), result) == execute::<B>(
                Op::DEC,
                AddrMode::ABX,
                *old(self),
                old(bus).model(),
            ),
    {
        let addr: u16 = self.fetch_addr_mode_abx(bus);
        self.dec(bus, addr)
    }

    pub fn op_dcp_abx<B: Bus>(&mut self, bus: &mut B) -> (result: Result<(), Fault>)
        requires
            old(bus).valid(),
        ensures
            final(bus).valid(),
            step_of(*final(self), final(bus).model(), result) == execute::<B>(
                Op::DCP,
                AddrMode::ABX,
                *old(self),
                old(bus).model(),
            ),
    {
        let addr: u16 = self.fetch_addr_mode_abx(bus);
        self.dcp(bus, addr)
    }

    pub fn op_cpx_imm<B: Bus>(&mut self, bus: &mut B) -> (result: Result<(), Fault>)
        requires
            old(bus).valid(),
        ensures
            final(bus).valid(),
            step_of(*final(self), final(bus).model(), result) == execute::<B>(
                Op::CPX,
                AddrMode::IMM,
                *old(self),
                old(bus).model(),
            ),
    {
        let val: u8 = self.fetch_byte(bus);
        self.compare(self.x, val);
        Ok(())
    }

    pub fn op_sbc_izx<B: Bus>(&mut self, bus: &mut B) -> (result: Result<(), Fault>)
        requires
            old(bus).valid(),
        ensures
            final(bus).valid(),
            step_of(*final(self), final(bus).model(), result) == execute::<B>(
                Op::SBC,
                AddrMode::IZX,
                *old(self),
                old(bus).model(),
            ),
    {
        let val: u8 = self.fetch_val_mode_izx(bus);
        self.sbc(val);
        Ok(())
    }

    pub fn op_isc_izx<B: Bus>(&mut self, bus: &mut B) -> (result: Result<(), Fault>)
        requires
            old(bus).valid(),
        ensures
            final(bus).valid(),
            step_of(*final(self), final(bus).model(), result) == execute::<B>(
                Op::ISC,
                AddrMode::IZX,
                *old(self),
                old(bus).model(),
            ),
    {
        let addr: u16 = self.fetch_addr_mode_izx(bus);
        self.isc(bus, addr)
    }

    pub fn op_cpx_zp<B: Bus>(&mut self, bus: &mut B) -> (result: Result<(), Fault>)
        requires
            old(bus).valid(),
        ensures
            final(bus).valid(),
            step_of(*final(self), final(bus).model(), result) == execute::<B>(
                Op::CPX,
                AddrMode::ZP,
                *old(self),
                old(bus).model(),
            ),
    {
        let val: u8 = self.fetch_val_mode_zp(bus);
        self.compare(self.x, val);
        Ok(())
    }

    pub fn op_sbc_zp<B: Bus>(&mut self, bus: &mut B) -> (result: Result<(), Fault>)
        requires
            old(bus).valid(),
        ensures
            final(bus).valid(),
            step_of(*final(self), final(bus).model(), result) == execute::<B>(
                Op::SBC,
                AddrMode::ZP,
                *old(self),
                old(bus).model(),
            ),
    {
        let val: u8 = self.fetch_val_mode_zp(bus);
        self.sbc(val);
        Ok(())
    }

    pub fn op_inc_zp<B: Bus>(&mut self, bus: &mut B) -> (result: Result<(), Fault>)
        requires
            old(bus).valid(),
        ensures
            final(bus).valid(),
            step_of(*final(self), final(bus).model(), result) == execute::<B>(
                Op::INC,
                AddrMode::ZP,
                *old(self),
                old(bus).model(),
            ),
    {
        let addr: u16 = self.fetch_addr_mode_zp(bus);
        self.inc(bus, addr)
    }

    pub fn op_isc_zp<B: Bus>(&mut self, bus: &mut B) -> (result: Result<(), Fault>)
        requires
            old(bus).valid(),
        ensures
            final(bus).valid(),
            step_of(*final(self), final(bus).model(), result) == execute::<B>(
                Op::ISC,
                AddrMode::ZP,
                *old(self),
                old(bus).model(),
            ),
    {
        let addr: u16 = self.fetch_addr_mode_zp(bus);
        self.isc(bus, addr)
    }

    pub fn op_inx<B: Bus>(&mut self, bus: &mut B) -> (result: Result<(), Fault>)
        requires
            old(bus).valid(),
        ensures
            final(bus).valid(),
            step_of(*final(self), final(bus).model(), result) == execute::<B>(
                Op::INX,
                AddrMode::IMP,
                *old(self),
                old(bus).model(),
            ),
    {
        self.x = inc_value(self.x);
        self.compute_nz_val(self.x);
        Ok(())
    }

    pub fn op_sbc_imm<B: Bus>(&mut self, bus: &mut B) -> (result: Result<(), Fault>)
        requires
            old(bus).valid(),
        ensures
            final(bus).valid(),
            step_of(*final(self), final(bus).model(), result) == execute::<B>(
                Op::SBC,
                AddrMode::IMM,
                *old(self),
                old(bus).model(),
            ),
    {
        let val: u8 = self.fetch_byte(bus);
        self.sbc(val);
        Ok(())
    }

    pub fn op_cpx_abs<B: Bus>(&mut self, bus: &mut B) -> (result: Result<(), Fault>)
        requires
            old(bus).valid(),
        ensures
            final(bus).valid(),
            step_of(*final(self), final(bus).model(), result) == execute::<B>(
                Op::CPX,
                AddrMode::ABS,
                *old(self),
                old(bus).model(),
            ),
    {
        let val: u8 = self.fetch_val_mode_abs(bus);
        self.compare(self.x, val);
        Ok(())
    }

    pub fn op_sbc_abs<B: Bus>(&mut self, bus: &mut B) -> (result: Result<(), Fault>)
        requires
            old(bus).valid(),
        ensures
            final(bus).valid(),
            step_of(*final(self), final(bus).model(), result) == execute::<B>(
                Op::SBC,
                AddrMode::ABS,
                *old(self),
                old(bus).model(),
            ),
    {
        let val: u8 = self.fetch_val_mode_abs(bus);
        self.sbc(val);
        Ok(())
    }

    pub fn op_inc_abs<B: Bus>(&mut self, bus: &mut B) -> (result: Result<(), Fault>)
        requires
            old(bus).valid(),
        ensures
            final(bus).valid(),
            step_of(*final(self), final(bus).model(), result) == execute::<B>(
                Op::INC,
                AddrMode::ABS,
                *old(self),
                old(bus).model(),
            ),
    {
        let addr: u16 = self.fetch_addr_mode_abs(bus);
        self.inc(bus, addr)
    }

    pub fn op_isc_abs<B: Bus>(&mut self, bus: &mut B) -> (result: Result<(), Fault>)
        requires
            old(bus).valid(),
        ensures
            final(bus).valid(),
            step_of(*final(self), final(bus).model(), result) == execute::<B>(
                Op::ISC,
                AddrMode::ABS,
                *old(self),
                old(bus).model(),
            ),
    {
        let addr: u16 = self.fetch_addr_mode_abs(bus);
        self.isc(bus, addr)
    }

    pub fn op_beq_rel<B: Bus>(&mut self, bus: &mut B) -> (result: Result<(), Fault>)
        requires
            old(bus).valid(),
        ensures
            final(bus).valid(),
            step_of(*final(self), final(bus).model(), result) == execute::<B>(
                Op::BEQ,
                AddrMode::REL,
                *old(self),
                old(bus).model(),
            ),
    {
        let addr: u16 = self.fetch_addr_mode_rel(bus);
        self.beq(addr);
        Ok(())
    }

    pub fn op_sbc_izy<B: Bus>(&mut self, bus: &mut B) -> (result: Result<(), Fault>)
        requires
            old(bus).valid(),
        ensures
            final(bus).valid(),
            step_of(*final(self), final(bus).model(), result) == execute::<B>(
                Op::SBC,
                AddrMode::IZY,
                *old(self),
                old(bus).model(),
            ),
    {
        let val: u8 = self.fetch_val_mode_izy(bus);
        self.sbc(val);
        Ok(())
    }

    pub fn op_isc_izy<B: Bus>(&mut self, bus: &mut B) -> (result: Result<(), Fault>)
        requires
            old(bus).valid(),
        ensures
            final(bus).valid(),
            step_of(*final(self), final(bus).model(), result) == execute::<B>(
                Op::ISC,
                AddrMode::IZY,
                *old(self),
                old(bus).model(),
            ),
    {
        let addr: u16 = self.fetch_addr_mode_izy(bus);
        self.isc(bus, addr)
    }

    pub fn op_sbc_zpx<B: Bus>(&mut self, bus: &mut B) -> (result: Result<(), Fault>)
        requires
            old(bus).valid(),
        ensures
            final(bus).valid(),
            step_of(*final(self), final(bus).model(), result) == execute::<B>(
                Op::SBC,
                AddrMode::ZPX,
                *old(self),
                old(bus).model(),
            ),
    {
        let val: u8 = self.fetch_val_mode_zpx(bus);
        self.sbc(val);
        Ok(())
    }

    pub fn op_inc_zpx<B: Bus>(&mut self, bus: &mut B) -> (result: Result<(), Fault>)
        requires
            old(bus).valid(),
        ensures
            final(bus).valid(),
            step_of(*final(self), final(bus).model(), result) == execute::<B>(
                Op::INC,
                AddrMode::ZPX,
                *old(self),
                old(bus).model(),
            ),
    {
        let addr: u16 = self.fetch_addr_mode_zpx(bus);
        self.inc(bus, addr)
    }

    pub fn op_isc_zpx<B: Bus>(&mut self, bus: &mut B) -> (result: Result<(), Fault>)
        requires
            old(bus).valid(),
        ensures
            final(bus).valid(),
            step_of(*final(self), final(bus).model(), result) == execute::<B>(
                Op::ISC,
                AddrMode::ZPX,
                *old(self),
                old(bus).model(),
            ),
    {
        let addr: u16 = self.fetch_addr_mode_zpx(bus);
        self.isc(bus, addr)
    }

    pub fn op_sed<B: Bus>(&mut self, bus: &mut B) -> (result: Result<(), Fault>)
        requires
            old(bus).valid(),
        ensures
            final(bus).valid(),
            step_of(*final(self), final(bus).model(), result) == execute::<B>(
                Op::SED,
                AddrMode::IMP,
                *old(self),
                old(bus).model(),
            ),
    {
        self.d = true;
        Ok(())
    }

    pub fn op_sbc_aby<B: Bus>(&mut self, bus: &mut B) -> (result: Result<(), Fault>)
        requires
            old(bus).valid(),
        ensures
            final(bus).valid(),
            step_of(*final(self), final(bus).model(), result) == execute::<B>(
                Op::SBC,
                AddrMode::ABY,
                *old(self),
                old(bus).model(),
            ),
    {
        let val: u8 = self.fetch_val_mode_aby(bus);
        self.sbc(val);
        Ok(())
    }

    pub fn op_isc_aby<B: Bus>(&mut self, bus: &mut B) -> (result: Result<(), Fault>)
        requires
            old(bus).valid(),
        ensures
            final(bus).valid(),
            step_of(*final(self), final(bus).model(), result) == execute::<B>(
                Op::ISC,
                AddrMode::ABY,
                *old(self),
                old(bus).model(),
            ),
    {
        let addr: u16 = self.fetch_addr_mode_aby(bus);
        self.isc(bus, addr)
    }

    pub fn op_sbc_abx<B: Bus>(&mut self, bus: &mut B) -> (result: Result<(), Fault>)
        requires
            old(bus).valid(),
        ensures
            final(bus).valid(),
            step_of(*final(self), final(bus).model(), result) == execute::<B>(
                Op::SBC,
                AddrMode::ABX,
                *old(self),
                old(bus).model(),
            ),
    {
        let val: u8 = self.fetch_val_mode_abx(bus);
        self.sbc(val);
        Ok(())
    }

    pub fn op_inc_abx<B: Bus>(&mut self, bus: &mut B) -> (result: Result<(), Fault>)
        requires
            old(bus).valid(),
        ensures
            final(bus).valid(),
            step_of(*final(self), final(bus).model(), result) == execute::<B>(
                Op::INC,
                AddrMode::ABX,
                *old(self),
                old(bus).model(),
            ),
    {
        let addr: u16 = self.fetch_addr_mode_abx(bus);
        self.inc(bus, addr)
    }

    pub fn op_isc_abx<B: Bus>(&mut self, bus: &mut B) -> (result: Result<(), Fault>)
        requires
            old(bus).valid(),
        ensures
            final(bus).valid(),
            step_of(*final(self), final(bus).model(), result) == execute::<B>(
                Op::ISC,
                AddrMode::ABX,
                *old(self),
                old(bus).model(),
            ),
    {
        let addr: u16 = self.fetch_addr_mode_abx(bus);
        self.isc(bus, addr)
    }
}

} // verus!
