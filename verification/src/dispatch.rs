// From opcode to handler, and the tick that paces instructions.
use crate::bus::Bus;
use crate::cpu::{Cpu, Fault};
use crate::cpu_table::cycles_of;
use crate::isa::{charged, fetch_execute, instr, step_of, ticked, INTERRUPT_CYCLES};
use vstd::prelude::*;

verus! {

impl Cpu {
    /// Executes the instruction that `opcode` encodes. The program counter is
    /// past the opcode already.
    pub fn dispatch<B: Bus>(&mut self, bus: &mut B, opcode: u8) -> (result: Result<(), Fault>)
        requires
            old(bus).valid(),
        ensures
            final(bus).valid(),
            step_of(*final(self), final(bus).model(), result) == instr::<B>(*old(self), old(bus).model(), opcode),
    {
        match opcode {
            0x00 => self.op_brk(bus),
            0x01 => self.op_ora_izx(bus),
            0x02 => self.op_hlt(bus),
            0x03 => self.op_slo_izx(bus),
            0x04 => self.op_nop_zp(bus),
            0x05 => self.op_ora_zp(bus),
            0x06 => self.op_asl_zp(bus),
            0x07 => self.op_slo_zp(bus),
            0x08 => self.op_php(bus),
            0x09 => self.op_ora_imm(bus),
            0x0a => self.op_asl(bus),
            0x0b => self.op_anc_imm(bus),
            0x0c => self.op_nop_abs(bus),
            0x0d => self.op_ora_abs(bus),
            0x0e => self.op_asl_abs(bus),
            0x0f => self.op_slo_abs(bus),
            0x10 => self.op_bpl_rel(bus),
            0x11 => self.op_ora_izy(bus),
            0x12 => self.op_hlt(bus),
            0x13 => self.op_slo_izy(bus),
            0x14 => self.op_nop_zpx(bus),
            0x15 => self.op_ora_zpx(bus),
            0x16 => self.op_asl_zpx(bus),
            0x17 => self.op_slo_zpx(bus),
            0x18 => self.op_clc(bus),
            0x19 => self.op_ora_aby(bus),
            0x1a => self.op_nop(bus),
            0x1b => self.op_slo_aby(bus),
            0x1c => self.op_nop_abx(bus),
            0x1d => self.op_ora_abx(bus),
            0x1e => self.op_asl_abx(bus),
            0x1f => self.op_slo_abx(bus),
            0x20 => self.op_jsr_abs(bus),
            0x21 => self.op_and_izx(bus),
            0x22 => self.op_hlt(bus),
            0x23 => self.op_rla_izx(bus),
            0x24 => self.op_bit_zp(bus),
            0x25 => self.op_and_zp(bus),
            0x26 => self.op_rol_zp(bus),
            0x27 => self.op_rla_zp(bus),
            0x28 => self.op_plp(bus),
            0x29 => self.op_and_imm(bus),
            0x2a => self.op_rol(bus),
            0x2b => self.op_anc_imm(bus),
            0x2c => self.op_bit_abs(bus),
            0x2d => self.op_and_abs(bus),
            0x2e => self.op_rol_abs(bus),
            0x2f => self.op_rla_abs(bus),
            0x30 => self.op_bmi_rel(bus),
            0x31 => self.op_and_izy(bus),
            0x32 => self.op_hlt(bus),
            0x33 => self.op_rla_izy(bus),
            0x34 => self.op_nop_zpx(bus),
            0x35 => self.op_and_zpx(bus),
            0x36 => self.op_rol_zpx(bus),
            0x37 => self.op_rla_zpx(bus),
            0x38 => self.op_sec(bus),
            0x39 => self.op_and_aby(bus),
            0x3a => self.op_nop(bus),
            0x3b => self.op_rla_aby(bus),
            0x3c => self.op_nop_abx(bus),
            0x3d => self.op_and_abx(bus),
            0x3e => self.op_rol_abx(bus),
            0x3f => self.op_rla_abx(bus),
            0x40 => self.op_rti(bus),
            0x41 => self.op_eor_izx(bus),
            0x42 => self.op_hlt(bus),
            0x43 => self.op_sre_izx(bus),
            0x44 => self.op_nop_zp(bus),
            0x45 => self.op_eor_zp(bus),
            0x46 => self.op_lsr_zp(bus),
            0x47 => self.op_sre_zp(bus),
            0x48 => self.op_pha(bus),
            0x49 => self.op_eor_imm(bus),
            0x4a => self.op_lsr(bus),
            0x4b => self.op_alr_imm(bus),
            0x4c => self.op_jmp_abs(bus),
            0x4d => self.op_eor_abs(bus),
            0x4e => self.op_lsr_abs(bus),
            0x4f => self.op_sre_abs(bus),
            0x50 => self.op_bvc_rel(bus),
            0x51 => self.op_eor_izy(bus),
            0x52 => self.op_hlt(bus),
            0x53 => self.op_sre_izy(bus),
            0x54 => self.op_nop_zpx(bus),
            0x55 => self.op_eor_zpx(bus),
            0x56 => self.op_lsr_zpx(bus),
            0x57 => self.op_sre_zpx(bus),
            0x58 => self.op_cli(bus),
            0x59 => self.op_eor_aby(bus),
            0x5a => self.op_nop(bus),
            0x5b => self.op_sre_aby(bus),
            0x5c => self.op_nop_abx(bus),
            0x5d => self.op_eor_abx(bus),
            0x5e => self.op_lsr_abx(bus),
            0x5f => self.op_sre_abx(bus),
            0x60 => self.op_rts(bus),
            0x61 => self.op_adc_izx(bus),
            0x62 => self.op_hlt(bus),
            0x63 => self.op_rra_izx(bus),
            0x64 => self.op_nop_zp(bus),
            0x65 => self.op_adc_zp(bus),
            0x66 => self.op_ror_zp(bus),
            0x67 => self.op_rra_zp(bus),
            0x68 => self.op_pla(bus),
            0x69 => self.op_adc_imm(bus),
            0x6a => self.op_ror(bus),
            0x6b => self.op_arr_imm(bus),
            0x6c => self.op_jmp_ind(bus),
            0x6d => self.op_adc_abs(bus),
            0x6e => self.op_ror_abs(bus),
            0x6f => self.op_rra_abs(bus),
            0x70 => self.op_bvs_rel(bus),
            0x71 => self.op_adc_izy(bus),
            0x72 => self.op_hlt(bus),
            0x73 => self.op_rra_izy(bus),
            0x74 => self.op_nop_zpx(bus),
            0x75 => self.op_adc_zpx(bus),
            0x76 => self.op_ror_zpx(bus),
            0x77 => self.op_rra_zpx(bus),
            0x78 => self.op_sei(bus),
            0x79 => self.op_adc_aby(bus),
            0x7a => self.op_nop(bus),
            0x7b => self.op_rra_aby(bus),
            0x7c => self.op_nop_abx(bus),
            0x7d => self.op_adc_abx(bus),
            0x7e => self.op_ror_abx(bus),
            0x7f => self.op_rra_abx(bus),
            0x80 => self.op_nop_imm(bus),
            0x81 => self.op_sta_izx(bus),
            0x82 => self.op_nop_imm(bus),
            0x83 => self.op_sax_izx(bus),
            0x84 => self.op_sty_zp(bus),
            0x85 => self.op_sta_zp(bus),
            0x86 => self.op_stx_zp(bus),
            0x87 => self.op_sax_zp(bus),
            0x88 => self.op_dey(bus),
            0x89 => self.op_nop_imm(bus),
            0x8a => self.op_txa(bus),
            0x8b => self.op_xaa_imm(bus),
            0x8c => self.op_sty_abs(bus),
            0x8d => self.op_sta_abs(bus),
            0x8e => self.op_stx_abs(bus),
            0x8f => self.op_sax_abs(bus),
            0x90 => self.op_bcc_rel(bus),
            0x91 => self.op_sta_izy(bus),
            0x92 => self.op_hlt(bus),
            0x93 => self.op_ahx_izy(bus),
            0x94 => self.op_sty_zpx(bus),
            0x95 => self.op_sta_zpx(bus),
            0x96 => self.op_stx_zpy(bus),
            0x97 => self.op_sax_zpy(bus),
            0x98 => self.op_tya(bus),
            0x99 => self.op_sta_aby(bus),
            0x9a => self.op_txs(bus),
            0x9b => self.op_tas_aby(bus),
            0x9c => self.op_shy_abx(bus),
            0x9d => self.op_sta_abx(bus),
            0x9e => self.op_shx_aby(bus),
            0x9f => self.op_ahx_aby(bus),
            0xa0 => self.op_ldy_imm(bus),
            0xa1 => self.op_lda_izx(bus),
            0xa2 => self.op_ldx_imm(bus),
            0xa3 => self.op_lax_izx(bus),
            0xa4 => self.op_ldy_zp(bus),
            0xa5 => self.op_lda_zp(bus),
            0xa6 => self.op_ldx_zp(bus),
            0xa7 => self.op_lax_zp(bus),
            0xa8 => self.op_tay(bus),
            0xa9 => self.op_lda_imm(bus),
            0xaa => self.op_tax(bus),
            0xab => self.op_lax_imm(bus),
            0xac => self.op_ldy_abs(bus),
            0xad => self.op_lda_abs(bus),
            0xae => self.op_ldx_abs(bus),
            0xaf => self.op_lax_abs(bus),
            0xb0 => self.op_bcs_rel(bus),
            0xb1 => self.op_lda_izy(bus),
            0xb2 => self.op_hlt(bus),
            0xb3 => self.op_lax_izy(bus),
            0xb4 => self.op_ldy_zpx(bus),
            0xb5 => self.op_lda_zpx(bus),
            0xb6 => self.op_ldx_zpy(bus),
            0xb7 => self.op_lax_zpy(bus),
            0xb8 => self.op_clv(bus),
            0xb9 => self.op_lda_aby(bus),
            0xba => self.op_tsx(bus),
            0xbb => self.op_las_aby(bus),
            0xbc => self.op_ldy_abx(bus),
            0xbd => self.op_lda_abx(bus),
            0xbe => self.op_ldx_aby(bus),
            0xbf => self.op_lax_aby(bus),
            0xc0 => self.op_cpy_imm(bus),
            0xc1 => self.op_cmp_izx(bus),
            0xc2 => self.op_nop_imm(bus),
            0xc3 => self.op_dcp_izx(bus),
            0xc4 => self.op_cpy_zp(bus),
            0xc5 => self.op_cmp_zp(bus),
            0xc6 => self.op_dec_zp(bus),
            0xc7 => self.op_dcp_zp(bus),
            0xc8 => self.op_iny(bus),
            0xc9 => self.op_cmp_imm(bus),
            0xca => self.op_dex(bus),
            0xcb => self.op_axs_imm(bus),
            0xcc => self.op_cpy_abs(bus),
            0xcd => self.op_cmp_abs(bus),
            0xce => self.op_dec_abs(bus),
            0xcf => self.op_dcp_abs(bus),
            0xd0 => self.op_bne_rel(bus),
            0xd1 => self.op_cmp_izy(bus),
            0xd2 => self.op_hlt(bus),
            0xd3 => self.op_dcp_izy(bus),
            0xd4 => self.op_nop_zpx(bus),
            0xd5 => self.op_cmp_zpx(bus),
            0xd6 => self.op_dec_zpx(bus),
            0xd7 => self.op_dcp_zpx(bus),
            0xd8 => self.op_cld(bus),
            0xd9 => self.op_cmp_aby(bus),
            0xda => self.op_nop(bus),
            0xdb => self.op_dcp_aby(bus),
            0xdc => self.op_nop_abx(bus),
            0xdd => self.op_cmp_abx(bus),
            0xde => self.op_dec_abx(bus),
            0xdf => self.op_dcp_abx(bus),
            0xe0 => self.op_cpx_imm(bus),
            0xe1 => self.op_sbc_izx(bus),
            0xe2 => self.op_nop_imm(bus),
            0xe3 => self.op_isc_izx(bus),
            0xe4 => self.op_cpx_zp(bus),
            0xe5 => self.op_sbc_zp(bus),
            0xe6 => self.op_inc_zp(bus),
            0xe7 => self.op_isc_zp(bus),
            0xe8 => self.op_inx(bus),
            0xe9 => self.op_sbc_imm(bus),
            0xea => self.op_nop(bus),
            0xeb => self.op_sbc_imm(bus),
            0xec => self.op_cpx_abs(bus),
            0xed => self.op_sbc_abs(bus),
            0xee => self.op_inc_abs(bus),
            0xef => self.op_isc_abs(bus),
            0xf0 => self.op_beq_rel(bus),
            0xf1 => self.op_sbc_izy(bus),
            0xf2 => self.op_hlt(bus),
            0xf3 => self.op_isc_izy(bus),
            0xf4 => self.op_nop_zpx(bus),
            0xf5 => self.op_sbc_zpx(bus),
            0xf6 => self.op_inc_zpx(bus),
            0xf7 => self.op_isc_zpx(bus),
            0xf8 => self.op_sed(bus),
            0xf9 => self.op_sbc_aby(bus),
            0xfa => self.op_nop(bus),
            0xfb => self.op_isc_aby(bus),
            0xfc => self.op_nop_abx(bus),
            0xfd => self.op_sbc_abx(bus),
            0xfe => self.op_inc_abx(bus),
            0xff => self.op_isc_abx(bus),
        }
    }

    /// Fetches the opcode at the program counter and executes its
    /// instruction, with the cycle budget set to the opcode's base count.
    pub fn execute_next<B: Bus>(&mut self, bus: &mut B) -> (result: Result<(), Fault>)
        requires
            old(bus).valid(),
        ensures
            final(bus).valid(),
            step_of(*final(self), final(bus).model(), result) == fetch_execute::<B>(
                *old(self),
                old(bus).model(),
            ),
    {
        let opcode: u8 = self.fetch_byte(bus);
        self.opcode = opcode;
        self.cycles_remaining = cycles_of(opcode);
        self.dispatch(bus, opcode)
    }

    /// Charges the cycle in which the work was done, unless it failed.
    pub fn charge(&mut self, result: Result<(), Fault>)
        ensures
            *final(self) == charged(step_of(*old(self), (), result)).cpu,
    {
        if result.is_ok() {
            self.cycles_remaining = self.cycles_remaining.wrapping_sub(1);
        }
    }

    /// One clock tick. A tick at an instruction boundary does the whole work
    /// of the next instruction, or of an interrupt entry, and sets the cycle
    /// budget that the following ticks count down.
    pub fn tick<B: Bus>(&mut self, bus: &mut B) -> (result: Result<(), Fault>)
        requires
            old(bus).valid(),
        ensures
            final(bus).valid(),
            step_of(*final(self), final(bus).model(), result) == ticked::<B>(*old(self), old(bus).model()),
    {
        proof {
            reveal(ticked);
        }
        if self.cycles_remaining > 0 {
            self.cycles_remaining = self.cycles_remaining - 1;
            return Ok(());
        }
        let result = if self.nmi_pending {
            self.nmi_pending = false;
            self.cycles_remaining = INTERRUPT_CYCLES;
            self.nmi(bus)
        } else if self.irq_line && !self.i {
            self.cycles_remaining = INTERRUPT_CYCLES;
            self.irq(bus)
        } else {
            self.execute_next(bus)
        };
        self.charge(result);
        result
    }
}

} // verus!
