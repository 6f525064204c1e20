use atari800_rs::addressable::Addressable;
use atari800_rs::cpu::{Cpu, Fault};
use atari800_rs::mem::Mem;

fn get_cpu_mem() -> (Cpu, Mem) {
    let rom = vec![0u8; 10240];
    let mem = Mem::new(0, false, &rom).unwrap();
    let cpu = Cpu::new();

    (cpu, mem)
}

// Return true if reached break instruction within max_ticks.
fn run(cpu: &mut Cpu, mem: &mut Mem, code: &[u8], max_ticks: i32) -> bool {
    mem.load_ram(0x0800, code);
    mem.load_ram(0x0800 + code.len() as u16, &[0x00]);
    cpu.pc = 0x0800;

    for _ in 0..max_ticks {
        cpu.tick(mem).unwrap();
        if mem.get_byte(cpu.pc) == 0 {
            return true;
        }
    }

    false
}

#[test]
fn test_lda_imm() {
    let (mut cpu, mut mem) = get_cpu_mem();

    let code: [u8; 2] = [0xA9, 0x00]; // LDA IMM
    let _halted = run(&mut cpu, &mut mem, &code, 100);
    assert_eq!(cpu.a, 0x00);
    assert_eq!(cpu.z, true);
    assert_eq!(cpu.n, false);

    let code: [u8; 2] = [0xA9, 0xFF]; // LDA IMM
    let _halted = run(&mut cpu, &mut mem, &code, 100);
    assert_eq!(cpu.a, 0xFF);
    assert_eq!(cpu.z, false);
    assert_eq!(cpu.n, true);
}

#[test]
fn test_ldx_imm() {
    let (mut cpu, mut mem) = get_cpu_mem();

    let code: [u8; 2] = [0xA2, 0x00]; // LDX IMM
    let _halted = run(&mut cpu, &mut mem, &code, 100);
    assert_eq!(cpu.x, 0x00);
    assert_eq!(cpu.z, true);
    assert_eq!(cpu.n, false);

    let code: [u8; 2] = [0xA2, 0xFF]; // LDX IMM
    let _halted = run(&mut cpu, &mut mem, &code, 100);
    assert_eq!(cpu.x, 0xFF);
    assert_eq!(cpu.z, false);
    assert_eq!(cpu.n, true);
}

#[test]
fn test_ldy_imm() {
    let (mut cpu, mut mem) = get_cpu_mem();

    let code: [u8; 2] = [0xA0, 0x00]; // LDY IMM
    let _halted = run(&mut cpu, &mut mem, &code, 100);
    assert_eq!(cpu.y, 0x00);
    assert_eq!(cpu.z, true);
    assert_eq!(cpu.n, false);

    let code: [u8; 2] = [0xA0, 0xFF]; // LDY IMM
    let _halted = run(&mut cpu, &mut mem, &code, 100);
    assert_eq!(cpu.y, 0xFF);
    assert_eq!(cpu.z, false);
    assert_eq!(cpu.n, true);
}

#[test]
fn test_adc_dec() {
    let (mut cpu, mut mem) = get_cpu_mem();

    let code: [u8; 6] = [
        0xF8, // SED
        0xA9, 0x85, // LDA #$85
        0x38, // SEC
        0x69, 0x25, // ADC #$25
    ];
    let _halted = run(&mut cpu, &mut mem, &code, 100);
    assert_eq!(cpu.a, 0x11);
    assert_eq!(cpu.z, false);
    assert_eq!(cpu.c, true);

    let code: [u8; 6] = [
        0xF8, // SED
        0xA9, 0x85, // LDA #$85
        0x18, // CLC
        0x69, 0x25, // ADC #$25
    ];
    let _halted = run(&mut cpu, &mut mem, &code, 100);
    assert_eq!(cpu.a, 0x10);
    assert_eq!(cpu.z, false);
    assert_eq!(cpu.c, true);

    let code: [u8; 6] = [
        0xF8, // SED
        0xA9, 0x12, // LDA #$12
        0x18, // CLC
        0x69, 0x19, // ADC #$19
    ];
    let _halted = run(&mut cpu, &mut mem, &code, 100);
    assert_eq!(cpu.a, 0x31);
    assert_eq!(cpu.z, false);
    assert_eq!(cpu.c, false);

    let code: [u8; 6] = [
        0xF8, // SED
        0xA9, 0x99, // LDA #$99
        0x38, // SEC
        0x69, 0x00, // ADC #$00
    ];
    let halted = run(&mut cpu, &mut mem, &code, 100);
    assert!(halted);
    assert_eq!(cpu.a, 0x00);
    assert_eq!(cpu.z, true);
    assert_eq!(cpu.c, true);
}

#[test]
fn test_sbc_dec() {
    let (mut cpu, mut mem) = get_cpu_mem();

    let code: [u8; 6] = [
        0xF8, // SED
        0xA9, 0x25, // LDA #$25
        0x18, // CLC
        0xEB, 0x85, // SBC #$85
    ];
    let _halted = run(&mut cpu, &mut mem, &code, 100);
    assert_eq!(cpu.a, 0x39);
    assert_eq!(cpu.z, false);
    assert_eq!(cpu.c, false);

    let code: [u8; 6] = [
        0xF8, // SED
        0xA9, 0x25, // LDA #$25
        0x38, // SEC
        0xEB, 0x85, // SBC #$85
    ];
    let _halted = run(&mut cpu, &mut mem, &code, 100);
    assert_eq!(cpu.a, 0x40);
    assert_eq!(cpu.z, false);
    assert_eq!(cpu.c, false);

    let code: [u8; 6] = [
        0xF8, // SED
        0xA9, 0x85, // LDA #$85
        0x38, // SEC
        0xEB, 0x22, // SBC #$22
    ];
    let _halted = run(&mut cpu, &mut mem, &code, 100);
    assert_eq!(cpu.a, 0x63);
    assert_eq!(cpu.z, false);
    assert_eq!(cpu.c, true);

    let code: [u8; 6] = [
        0xF8, // SED
        0xA9, 0x75, // LDA #$75
        0x38, // SEC
        0xEB, 0x75, // SBC #$75
    ];
    let halted = run(&mut cpu, &mut mem, &code, 100);
    assert!(halted);
    assert_eq!(cpu.a, 0x00);
    assert_eq!(cpu.z, true);
    assert_eq!(cpu.c, true);

    let code: [u8; 6] = [
        0xF8, // SED
        0xA9, 0x00, // LDA #$00
        0x18, // CLC
        0xEB, 0x99, // SBC #$99
    ];
    let halted = run(&mut cpu, &mut mem, &code, 100);
    assert!(halted);
    assert_eq!(cpu.a, 0x00);
    assert_eq!(cpu.z, true);
    assert_eq!(cpu.c, false);
}

/// Executes one whole instruction: the tick that does the work and the
/// ticks that use up its cycles. Returns the number of ticks.
fn step(cpu: &mut Cpu, mem: &mut Mem) -> u32 {
    assert_eq!(cpu.cycles_remaining, 0);
    cpu.tick(mem).unwrap();
    let mut ticks = 1;
    while cpu.cycles_remaining > 0 {
        cpu.tick(mem).unwrap();
        ticks += 1;
    }
    ticks
}

fn machine_with(code: &[u8], at: u16) -> (Cpu, Mem) {
    let mut mem = Mem::blank(0);
    mem.load_ram(at, code);
    let mut cpu = Cpu::new();
    cpu.pc = at;
    (cpu, mem)
}

#[test]
fn binary_adc_sets_carry_overflow_negative_zero() {
    let (mut cpu, mut mem) = machine_with(&[0x69, 0x25], 0x0200);
    cpu.a = 0x85;
    cpu.c = true;
    step(&mut cpu, &mut mem);
    assert_eq!(cpu.a, 0xAB);
    assert_eq!(cpu.c, false);
    assert_eq!(cpu.n, true);
    assert_eq!(cpu.z, false);
    assert_eq!(cpu.v, false);
}

#[test]
fn binary_adc_signed_overflow() {
    let (mut cpu, mut mem) = machine_with(&[0x69, 0x50], 0x0200);
    cpu.a = 0x50;
    step(&mut cpu, &mut mem);
    assert_eq!(cpu.a, 0xA0);
    assert_eq!(cpu.v, true);
    assert_eq!(cpu.c, false);

    let (mut cpu, mut mem) = machine_with(&[0x69, 0x90], 0x0200);
    cpu.a = 0x90;
    step(&mut cpu, &mut mem);
    assert_eq!(cpu.a, 0x20);
    assert_eq!(cpu.v, true);
    assert_eq!(cpu.c, true);
}

#[test]
fn binary_sbc_carry_is_not_borrow() {
    let (mut cpu, mut mem) = machine_with(&[0xE9, 0x30], 0x0200);
    cpu.a = 0x50;
    cpu.c = true;
    step(&mut cpu, &mut mem);
    assert_eq!(cpu.a, 0x20);
    assert_eq!(cpu.c, true);

    let (mut cpu, mut mem) = machine_with(&[0xE9, 0x60], 0x0200);
    cpu.a = 0x50;
    cpu.c = true;
    step(&mut cpu, &mut mem);
    assert_eq!(cpu.a, 0xF0);
    assert_eq!(cpu.c, false);
    assert_eq!(cpu.n, true);

    let (mut cpu, mut mem) = machine_with(&[0xE9, 0x00], 0x0200);
    cpu.a = 0x00;
    cpu.c = false;
    step(&mut cpu, &mut mem);
    assert_eq!(cpu.a, 0xFF);
    assert_eq!(cpu.c, false);
}

#[test]
fn decimal_adc_with_carry_in() {
    let (mut cpu, mut mem) = machine_with(&[0x69, 0x25], 0x0200);
    cpu.d = true;
    cpu.a = 0x85;
    cpu.c = true;
    step(&mut cpu, &mut mem);
    assert_eq!(cpu.a, 0x11);
    assert_eq!(cpu.c, true);
    assert_eq!(cpu.z, false);
}

#[test]
fn decimal_sbc_with_borrow_in() {
    let (mut cpu, mut mem) = machine_with(&[0xE9, 0x85], 0x0200);
    cpu.d = true;
    cpu.a = 0x25;
    cpu.c = false;
    step(&mut cpu, &mut mem);
    assert_eq!(cpu.a, 0x39);
    assert_eq!(cpu.c, false);
}

#[test]
fn decimal_sbc_of_equal_operands() {
    let (mut cpu, mut mem) = machine_with(&[0xE9, 0x75], 0x0200);
    cpu.d = true;
    cpu.a = 0x75;
    cpu.c = true;
    step(&mut cpu, &mut mem);
    assert_eq!(cpu.a, 0x00);
    assert_eq!(cpu.z, true);
    assert_eq!(cpu.c, true);
}

#[test]
fn lda_immediate_loads_and_sets_flags() {
    let (mut cpu, mut mem) = machine_with(&[0xA9, 0xFF], 0x0200);
    cpu.a = 0x12;
    let ticks = step(&mut cpu, &mut mem);
    assert_eq!(cpu.a, 0xFF);
    assert_eq!(cpu.n, true);
    assert_eq!(cpu.z, false);
    assert_eq!(cpu.pc, 0x0202);
    assert_eq!(ticks, 2);
}

#[test]
fn jsr_then_rts_returns_behind_the_call() {
    let (mut cpu, mut mem) = machine_with(&[0x20, 0x10, 0x03, 0x00, 0x60], 0x0200);
    mem.set_byte(0x0310, 0x60);
    cpu.s = 0xFD;
    let ticks = step(&mut cpu, &mut mem);
    assert_eq!(ticks, 6);
    assert_eq!(cpu.pc, 0x0310);
    assert_eq!(cpu.s, 0xFB);
    assert_eq!(mem.get_byte(0x01FD), 0x02);
    assert_eq!(mem.get_byte(0x01FC), 0x02);
    let ticks = step(&mut cpu, &mut mem);
    assert_eq!(ticks, 6);
    assert_eq!(cpu.pc, 0x0203);
    assert_eq!(cpu.s, 0xFD);
}

#[test]
fn php_plp_round_trip_keeps_flags() {
    let (mut cpu, mut mem) = machine_with(&[0x08, 0x28], 0x0200);
    cpu.s = 0xFF;
    cpu.n = true;
    cpu.v = false;
    cpu.d = true;
    cpu.i = false;
    cpu.z = true;
    cpu.c = true;
    step(&mut cpu, &mut mem);
    // bit 5 and the break bit are set in the pushed byte
    assert_eq!(mem.get_byte(0x01FF), 0x80 | 0x20 | 0x10 | 0x08 | 0x02 | 0x01);
    cpu.n = false;
    cpu.v = true;
    cpu.d = false;
    cpu.i = true;
    cpu.z = false;
    cpu.c = false;
    step(&mut cpu, &mut mem);
    assert_eq!((cpu.n, cpu.v, cpu.d, cpu.i, cpu.z, cpu.c), (true, false, true, false, true, true));
    assert_eq!(cpu.s, 0xFF);
}

#[test]
fn plp_ignores_break_and_reserved_bits() {
    let (mut cpu, mut mem) = machine_with(&[0x28, 0x08], 0x0200);
    cpu.s = 0xFE;
    mem.set_byte(0x01FF, 0x00);
    step(&mut cpu, &mut mem);
    assert_eq!((cpu.n, cpu.v, cpu.d, cpu.i, cpu.z, cpu.c), (false, false, false, false, false, false));
    step(&mut cpu, &mut mem);
    assert_eq!(mem.get_byte(0x01FF), 0x30);
}

#[test]
fn pha_pla_round_trip() {
    let (mut cpu, mut mem) = machine_with(&[0x48, 0xA9, 0x00, 0x68], 0x0200);
    cpu.a = 0xC3;
    assert_eq!(step(&mut cpu, &mut mem), 3);
    step(&mut cpu, &mut mem);
    assert_eq!(cpu.a, 0);
    assert_eq!(step(&mut cpu, &mut mem), 4);
    assert_eq!(cpu.a, 0xC3);
    assert_eq!(cpu.n, true);
    assert_eq!(cpu.z, false);
}

#[test]
fn stack_pointer_wraps_within_page_one() {
    let (mut cpu, mut mem) = machine_with(&[0x48, 0x48, 0x68, 0x68], 0x0200);
    cpu.s = 0x00;
    cpu.a = 0x77;
    step(&mut cpu, &mut mem);
    assert_eq!(cpu.s, 0xFF);
    assert_eq!(mem.get_byte(0x0100), 0x77);
    cpu.a = 0x88;
    step(&mut cpu, &mut mem);
    assert_eq!(mem.get_byte(0x01FF), 0x88);
    step(&mut cpu, &mut mem);
    assert_eq!(cpu.a, 0x88);
    step(&mut cpu, &mut mem);
    assert_eq!(cpu.a, 0x77);
    assert_eq!(cpu.s, 0x00);
}

#[test]
fn zero_page_indexed_wraps_in_page_zero() {
    // LDA $F0,X with X = 0x20 reads $10, not $110
    let (mut cpu, mut mem) = machine_with(&[0xB5, 0xF0], 0x0200);
    mem.set_byte(0x0010, 0x5A);
    mem.set_byte(0x0110, 0xA5);
    cpu.x = 0x20;
    assert_eq!(step(&mut cpu, &mut mem), 4);
    assert_eq!(cpu.a, 0x5A);
}

#[test]
fn indexed_indirect_wraps_pointer_in_page_zero() {
    // LDA ($FF,X) with X = 0: low byte at $FF, high byte at $00
    let (mut cpu, mut mem) = machine_with(&[0xA1, 0xFF], 0x0200);
    mem.set_byte(0x00FF, 0x34);
    mem.set_byte(0x0000, 0x12);
    mem.set_byte(0x1234, 0x99);
    assert_eq!(step(&mut cpu, &mut mem), 6);
    assert_eq!(cpu.a, 0x99);
}

#[test]
fn indirect_indexed_page_cross_costs_a_cycle() {
    let (mut cpu, mut mem) = machine_with(&[0xB1, 0x40, 0xB1, 0x40], 0x0200);
    mem.set_byte(0x0040, 0xF0);
    mem.set_byte(0x0041, 0x12);
    mem.set_byte(0x12F5, 0x11);
    mem.set_byte(0x1300, 0x22);
    cpu.y = 0x05;
    assert_eq!(step(&mut cpu, &mut mem), 5);
    assert_eq!(cpu.a, 0x11);
    cpu.y = 0x10;
    assert_eq!(step(&mut cpu, &mut mem), 6);
    assert_eq!(cpu.a, 0x22);
}

#[test]
fn absolute_indexed_read_pays_for_page_cross_but_store_does_not() {
    let (mut cpu, mut mem) = machine_with(&[0xBD, 0xF0, 0x12, 0x9D, 0xF0, 0x12, 0xBD, 0x00, 0x12], 0x0200);
    cpu.x = 0x20;
    mem.set_byte(0x1310, 0x42);
    assert_eq!(step(&mut cpu, &mut mem), 5);
    assert_eq!(cpu.a, 0x42);
    cpu.a = 0x24;
    assert_eq!(step(&mut cpu, &mut mem), 5);
    assert_eq!(mem.get_byte(0x1310), 0x24);
    assert_eq!(step(&mut cpu, &mut mem), 4);
}

#[test]
fn jmp_indirect_does_not_cross_the_page() {
    let (mut cpu, mut mem) = machine_with(&[0x6C, 0xFF, 0x30], 0x0200);
    mem.set_byte(0x30FF, 0x80);
    mem.set_byte(0x3100, 0x50);
    mem.set_byte(0x3000, 0x40);
    assert_eq!(step(&mut cpu, &mut mem), 5);
    assert_eq!(cpu.pc, 0x4080);
}

#[test]
fn branch_cycles_taken_and_page_crossed() {
    // not taken
    let (mut cpu, mut mem) = machine_with(&[0xD0, 0x10], 0x0200);
    cpu.z = true;
    assert_eq!(step(&mut cpu, &mut mem), 2);
    assert_eq!(cpu.pc, 0x0202);
    // taken, same page
    let (mut cpu, mut mem) = machine_with(&[0xD0, 0x10], 0x0200);
    cpu.z = false;
    assert_eq!(step(&mut cpu, &mut mem), 3);
    assert_eq!(cpu.pc, 0x0212);
    // taken, backwards into the previous page
    let (mut cpu, mut mem) = machine_with(&[0xD0, 0xFB], 0x0200);
    cpu.z = false;
    assert_eq!(step(&mut cpu, &mut mem), 4);
    assert_eq!(cpu.pc, 0x01FD);
}

#[test]
fn compare_sets_carry_when_register_is_not_below() {
    let (mut cpu, mut mem) = machine_with(&[0xC9, 0x40, 0xC9, 0x41, 0xC9, 0x3F], 0x0200);
    cpu.a = 0x40;
    step(&mut cpu, &mut mem);
    assert_eq!((cpu.c, cpu.z, cpu.n), (true, true, false));
    step(&mut cpu, &mut mem);
    assert_eq!((cpu.c, cpu.z, cpu.n), (false, false, true));
    step(&mut cpu, &mut mem);
    assert_eq!((cpu.c, cpu.z, cpu.n), (true, false, false));
    assert_eq!(cpu.a, 0x40);
}

#[test]
fn bit_takes_n_and_v_from_memory() {
    let (mut cpu, mut mem) = machine_with(&[0x24, 0x10], 0x0200);
    mem.set_byte(0x0010, 0xC0);
    cpu.a = 0x0F;
    step(&mut cpu, &mut mem);
    assert_eq!((cpu.n, cpu.v, cpu.z), (true, true, true));
    assert_eq!(cpu.a, 0x0F);
}

#[test]
fn shifts_and_rotates_through_carry() {
    let (mut cpu, mut mem) = machine_with(&[0x0A, 0x2A, 0x4A, 0x6A], 0x0200);
    cpu.a = 0x81;
    step(&mut cpu, &mut mem); // ASL
    assert_eq!((cpu.a, cpu.c), (0x02, true));
    step(&mut cpu, &mut mem); // ROL
    assert_eq!((cpu.a, cpu.c), (0x05, false));
    step(&mut cpu, &mut mem); // LSR
    assert_eq!((cpu.a, cpu.c), (0x02, true));
    step(&mut cpu, &mut mem); // ROR
    assert_eq!((cpu.a, cpu.c, cpu.n), (0x81, false, true));
}

#[test]
fn increment_in_memory_wraps_and_sets_zero() {
    let (mut cpu, mut mem) = machine_with(&[0xE6, 0x10, 0xC6, 0x10], 0x0200);
    mem.set_byte(0x0010, 0xFF);
    assert_eq!(step(&mut cpu, &mut mem), 5);
    assert_eq!(mem.get_byte(0x0010), 0x00);
    assert_eq!((cpu.z, cpu.n), (true, false));
    step(&mut cpu, &mut mem);
    assert_eq!(mem.get_byte(0x0010), 0xFF);
    assert_eq!((cpu.z, cpu.n), (false, true));
}

#[test]
fn transfers_set_nz_except_txs() {
    let (mut cpu, mut mem) = machine_with(&[0xAA, 0x9A, 0xBA], 0x0200);
    cpu.a = 0x00;
    cpu.n = true;
    step(&mut cpu, &mut mem); // TAX
    assert_eq!((cpu.x, cpu.z, cpu.n), (0, true, false));
    cpu.x = 0x80;
    step(&mut cpu, &mut mem); // TXS
    assert_eq!((cpu.s, cpu.z, cpu.n), (0x80, true, false));
    step(&mut cpu, &mut mem); // TSX
    assert_eq!((cpu.x, cpu.z, cpu.n), (0x80, false, true));
}

#[test]
fn undocumented_compounds() {
    // LAX $10 ; SAX $11 ; DCP $12 ; ISC $13 ; SLO $14 ; RLA $15 ; SRE $16 ; RRA $17
    let (mut cpu, mut mem) = machine_with(
        &[0xA7, 0x10, 0x87, 0x11, 0xC7, 0x12, 0xE7, 0x13, 0x07, 0x14, 0x27, 0x15, 0x47, 0x16, 0x67, 0x17],
        0x0200,
    );
    mem.set_byte(0x0010, 0x3C);
    step(&mut cpu, &mut mem);
    assert_eq!((cpu.a, cpu.x), (0x3C, 0x3C));
    cpu.x = 0x0F;
    step(&mut cpu, &mut mem);
    assert_eq!(mem.get_byte(0x0011), 0x0C);
    mem.set_byte(0x0012, 0x3D);
    step(&mut cpu, &mut mem);
    assert_eq!(mem.get_byte(0x0012), 0x3C);
    assert_eq!((cpu.z, cpu.c), (true, true));
    mem.set_byte(0x0013, 0x0B);
    cpu.c = true;
    step(&mut cpu, &mut mem);
    assert_eq!(mem.get_byte(0x0013), 0x0C);
    assert_eq!(cpu.a, 0x30);
    mem.set_byte(0x0014, 0x81);
    step(&mut cpu, &mut mem);
    assert_eq!(mem.get_byte(0x0014), 0x02);
    assert_eq!((cpu.a, cpu.c), (0x32, true));
    mem.set_byte(0x0015, 0x40);
    step(&mut cpu, &mut mem);
    assert_eq!(mem.get_byte(0x0015), 0x81);
    assert_eq!((cpu.a, cpu.c), (0x00, false));
    mem.set_byte(0x0016, 0x03);
    step(&mut cpu, &mut mem);
    assert_eq!(mem.get_byte(0x0016), 0x01);
    assert_eq!((cpu.a, cpu.c), (0x01, true));
    mem.set_byte(0x0017, 0x02);
    step(&mut cpu, &mut mem);
    assert_eq!(mem.get_byte(0x0017), 0x81);
    assert_eq!((cpu.a, cpu.c), (0x82, false));
}

#[test]
fn undocumented_immediates() {
    // ANC #$80 ; ALR #$03 ; ARR #$FF ; AXS #$01
    let (mut cpu, mut mem) = machine_with(&[0x0B, 0x80, 0x4B, 0x03, 0x6B, 0xFF, 0xCB, 0x01], 0x0200);
    cpu.a = 0xFF;
    step(&mut cpu, &mut mem);
    assert_eq!((cpu.a, cpu.c, cpu.n), (0x80, true, true));
    cpu.a = 0x07;
    step(&mut cpu, &mut mem);
    assert_eq!((cpu.a, cpu.c), (0x01, true));
    cpu.a = 0xC0;
    cpu.c = true;
    step(&mut cpu, &mut mem);
    assert_eq!(cpu.a, 0xE0);
    assert_eq!((cpu.c, cpu.v), (true, false));
    cpu.a = 0x0F;
    cpu.x = 0x03;
    step(&mut cpu, &mut mem);
    assert_eq!((cpu.x, cpu.c), (0x02, true));
}

#[test]
fn halt_opcode_is_a_fault() {
    let (mut cpu, mut mem) = machine_with(&[0x02], 0x0200);
    assert_eq!(cpu.tick(&mut mem), Err(Fault::Halt));
    assert_eq!(cpu.pc, 0x0201);
    assert_eq!(cpu.opcode, 0x02);
}

#[test]
fn unstable_opcode_is_a_fault() {
    let (mut cpu, mut mem) = machine_with(&[0x8B, 0x00], 0x0200);
    assert_eq!(cpu.tick(&mut mem), Err(Fault::Unimplemented));
}

#[test]
fn store_into_rom_is_a_fault() {
    let rom = vec![0u8; 10240];
    let mut mem = Mem::new(0xD800, false, &rom).unwrap();
    mem.load_ram(0x0200, &[0x8D, 0x00, 0xE0]);
    let mut cpu = Cpu::new();
    cpu.pc = 0x0200;
    cpu.a = 0x55;
    assert_eq!(cpu.tick(&mut mem), Err(Fault::WriteProtected(0xE000)));
    assert_eq!(mem.get_byte(0xE000), 0x00);
}

#[test]
fn reset_loads_vector_and_sets_conventions() {
    let mut mem = Mem::blank(0);
    mem.set_byte(0xFFFC, 0x34);
    mem.set_byte(0xFFFD, 0x12);
    let mut cpu = Cpu::new();
    cpu.d = true;
    cpu.reset(&mut mem);
    assert_eq!(cpu.pc, 0x1234);
    assert_eq!(cpu.s, 0xFD);
    assert_eq!(cpu.i, true);
    assert_eq!(cpu.d, false);
}

#[test]
fn brk_pushes_pc_plus_two_and_status_with_break() {
    let (mut cpu, mut mem) = machine_with(&[0x00, 0xEA], 0x0200);
    mem.set_byte(0xFFFE, 0x00);
    mem.set_byte(0xFFFF, 0x90);
    cpu.s = 0xFF;
    cpu.c = true;
    assert_eq!(step(&mut cpu, &mut mem), 7);
    assert_eq!(cpu.pc, 0x9000);
    assert_eq!(cpu.i, true);
    assert_eq!(mem.get_byte(0x01FF), 0x02);
    assert_eq!(mem.get_byte(0x01FE), 0x02);
    assert_eq!(mem.get_byte(0x01FD), 0x31);
    assert_eq!(cpu.s, 0xFC);
}

#[test]
fn nmi_entry_and_rti() {
    let (mut cpu, mut mem) = machine_with(&[0xEA, 0xEA], 0x0200);
    mem.set_byte(0xFFFA, 0x00);
    mem.set_byte(0xFFFB, 0x80);
    mem.set_byte(0x8000, 0x40); // RTI
    cpu.s = 0xFF;
    cpu.z = true;
    step(&mut cpu, &mut mem);
    cpu.request_nmi();
    assert_eq!(step(&mut cpu, &mut mem), 7);
    assert_eq!(cpu.pc, 0x8000);
    assert_eq!(cpu.i, true);
    assert_eq!(cpu.nmi_pending, false);
    // status was pushed with the break bit clear
    assert_eq!(mem.get_byte(0x01FD), 0x22);
    assert_eq!(step(&mut cpu, &mut mem), 6);
    assert_eq!(cpu.pc, 0x0201);
    assert_eq!(cpu.i, false);
    assert_eq!(cpu.z, true);
    assert_eq!(cpu.s, 0xFF);
}

#[test]
fn irq_waits_for_interrupt_disable_to_clear() {
    let (mut cpu, mut mem) = machine_with(&[0xEA, 0x58, 0xEA], 0x0200);
    mem.set_byte(0xFFFE, 0x00);
    mem.set_byte(0xFFFF, 0x70);
    cpu.i = true;
    cpu.set_irq(true);
    step(&mut cpu, &mut mem);
    assert_eq!(cpu.pc, 0x0201);
    step(&mut cpu, &mut mem); // CLI
    assert_eq!(step(&mut cpu, &mut mem), 7);
    assert_eq!(cpu.pc, 0x7000);
}

#[test]
fn every_opcode_takes_its_base_cycles() {
    let expect: [(u8, u32); 8] =
        [(0xEA, 2), (0xA5, 3), (0xAD, 4), (0x06, 5), (0x0E, 6), (0x1E, 7), (0x03, 8), (0x48, 3)];
    for (opcode, cycles) in expect {
        let (mut cpu, mut mem) = machine_with(&[opcode, 0x10, 0x00], 0x0200);
        assert_eq!(step(&mut cpu, &mut mem), cycles);
    }
}
