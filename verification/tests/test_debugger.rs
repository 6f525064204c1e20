use atari800_rs::addressable::Addressable;
use atari800_rs::cpu::{Cpu, Fault};
use atari800_rs::cpu_table::AddrMode;
use atari800_rs::debugger::{parse_address, parse_command, trim, Argument, Command, Debugger, Instruction, Op, Reply};
use atari800_rs::functional_test::{FunctionalTest, Outcome};
use atari800_rs::mem::{Mem, MemError};

#[test]
fn commands_are_read_from_lines() {
    assert_eq!(parse_command(b"ss"), Command::ToggleState);
    assert_eq!(parse_command(b"  sd\n"), Command::ToggleDisassembly);
    assert_eq!(parse_command(b"r\r\n"), Command::Run);
    assert_eq!(parse_command(b"s"), Command::Step);
    assert_eq!(parse_command(b"bp 1234"), Command::Breakpoint(0x1234));
    assert_eq!(parse_command(b"bp abCD\n"), Command::Breakpoint(0xABCD));
    assert_eq!(parse_command(b"bp 0400 extra"), Command::Breakpoint(0x0400));
    assert_eq!(parse_command(b"bp 123456"), Command::Breakpoint(0x1234));
    assert_eq!(parse_command(b"m ff00"), Command::Memory(0xFF00));
    // no hexadecimal text: a breakpoint is not set, memory is shown from 0
    assert_eq!(parse_command(b"bp 12x4"), Command::Nothing);
    assert_eq!(parse_command(b"bp 123"), Command::Nothing);
    assert_eq!(parse_command(b"m zz"), Command::Memory(0));
    assert_eq!(parse_command(b"m 123"), Command::Memory(0));
    // hexadecimal, but too short for an address
    assert_eq!(parse_command(b"bp 12"), Command::Nothing);
    assert_eq!(parse_command(b"m 12"), Command::Nothing);
    assert_eq!(parse_command(b"m  1234"), Command::Nothing);
    assert_eq!(parse_command(b"bp"), Command::Nothing);
    assert_eq!(parse_command(b"m"), Command::Nothing);
    assert_eq!(parse_command(b""), Command::Nothing);
    assert_eq!(parse_command(b"   "), Command::Nothing);
    assert_eq!(parse_command(b"sss"), Command::Nothing);
    assert_eq!(parse_command(b"x"), Command::Nothing);
    assert_eq!(parse_command(b"SS"), Command::Nothing);
}

#[test]
fn lines_are_trimmed_of_ascii_white_space() {
    assert_eq!(trim(b" \t bp 1 \r\n"), b"bp 1");
    assert_eq!(trim(b"\x0b\x0c"), b"");
    assert_eq!(trim(b"a"), b"a");
    assert_eq!(trim(b""), b"");
}

#[test]
fn addresses_are_hexadecimal_high_byte_first() {
    assert!(matches!(parse_address(b"0000"), Argument::Address(0)));
    assert!(matches!(parse_address(b"FfFe"), Argument::Address(0xFFFE)));
    assert!(matches!(parse_address(b"0a1B2c"), Argument::Address(0x0A1B)));
    assert!(matches!(parse_address(b"12"), Argument::Short));
    assert!(matches!(parse_address(b""), Argument::Short));
    assert!(matches!(parse_address(b"1"), Argument::Malformed));
    assert!(matches!(parse_address(b"12g4"), Argument::Malformed));
    assert!(matches!(parse_address(b"12 4"), Argument::Malformed));
}

#[test]
fn disassembly_of_three_bytes() {
    let debugger = Debugger::new();
    assert_eq!(
        debugger.disassemble(0xAD, 0x34, 0x12),
        Instruction { op: Op::LDA, mode: AddrMode::ABS, b2: 0x34, b3: 0x12 }
    );
    assert_eq!(debugger.disassemble(0xEA, 0, 0).mode, AddrMode::IMP);
    assert_eq!(debugger.disassemble(0xD0, 0xFE, 0).op, Op::BNE);
    assert_eq!(Debugger::length_of(AddrMode::IMP), 1);
    assert_eq!(Debugger::length_of(AddrMode::IMM), 2);
    assert_eq!(Debugger::length_of(AddrMode::REL), 2);
    assert_eq!(Debugger::length_of(AddrMode::IZY), 2);
    assert_eq!(Debugger::length_of(AddrMode::ABX), 3);
    assert_eq!(Debugger::length_of(AddrMode::IND), 3);
}

fn debugged() -> (Debugger, Cpu, Mem) {
    let mut mem = Mem::blank(0);
    // LDA #$01 ; LDX #$02 ; NOP ; JMP $0200
    mem.load_ram(0x0200, &[0xA9, 0x01, 0xA2, 0x02, 0xEA, 0x4C, 0x00, 0x02]);
    let mut cpu = Cpu::new();
    cpu.pc = 0x0200;
    (Debugger::new(), cpu, mem)
}

#[test]
fn debugger_toggles_and_shows_memory() {
    let (mut debugger, mut cpu, mut mem) = debugged();
    assert_eq!(debugger.tick(&mut cpu, &mut mem, b"ss\n"), Reply::ShowState(true));
    assert_eq!(debugger.tick(&mut cpu, &mut mem, b"ss\n"), Reply::ShowState(false));
    assert_eq!(debugger.tick(&mut cpu, &mut mem, b"sd\n"), Reply::ShowDisassembly(true));
    assert_eq!(debugger.tick(&mut cpu, &mut mem, b"m 0200\n"), Reply::Memory(0x0200, 0xA9, 0x01, 0xA2, 0x02));
    mem.set_byte(0x0000, 0x33);
    mem.set_byte(0xFFFF, 0x44);
    assert_eq!(debugger.tick(&mut cpu, &mut mem, b"m ffff\n"), Reply::Memory(0xFFFF, 0x44, 0x33, 0, 0));
    assert_eq!(debugger.tick(&mut cpu, &mut mem, b"what\n"), Reply::Ignored);
    assert_eq!(cpu.pc, 0x0200);
    assert!(!debugger.is_running());
}

#[test]
fn debugger_steps_with_state_and_listing() {
    let (mut debugger, mut cpu, mut mem) = debugged();
    assert_eq!(
        debugger.tick(&mut cpu, &mut mem, b"s"),
        Reply::Ticked { state: None, listing: None, fault: None }
    );
    assert_eq!((cpu.a, cpu.pc), (1, 0x0202));
    debugger.tick(&mut cpu, &mut mem, b"ss");
    debugger.tick(&mut cpu, &mut mem, b"sd");
    let before = cpu;
    let reply = debugger.tick(&mut cpu, &mut mem, b"s");
    assert_eq!(
        reply,
        Reply::Ticked {
            state: Some(before),
            listing: Some(Instruction { op: Op::LDX, mode: AddrMode::IMM, b2: 0x02, b3: 0xEA }),
            fault: None,
        }
    );
    assert_eq!(cpu.cycles_remaining, 0);
}

#[test]
fn debugger_runs_to_a_breakpoint() {
    let (mut debugger, mut cpu, mut mem) = debugged();
    assert_eq!(debugger.tick(&mut cpu, &mut mem, b"bp 0205"), Reply::BreakpointAdded(0x0205));
    assert_eq!(debugger.tick(&mut cpu, &mut mem, b"r"), Reply::Running);
    assert!(debugger.is_running());
    let mut ticks = 0;
    while debugger.is_running() {
        debugger.tick(&mut cpu, &mut mem, b"");
        ticks += 1;
        assert!(ticks < 100);
    }
    assert_eq!(cpu.pc, 0x0205);
    assert_eq!((cpu.a, cpu.x), (1, 2));
    // LDA, one idle tick, LDX, one idle tick, NOP
    assert_eq!(ticks, 5);
}

#[test]
fn debugger_reports_a_fault() {
    let mut mem = Mem::blank(0);
    mem.load_ram(0x0200, &[0x12]);
    let mut cpu = Cpu::new();
    cpu.pc = 0x0200;
    let mut debugger = Debugger::new();
    assert_eq!(
        debugger.tick(&mut cpu, &mut mem, b"s"),
        Reply::Ticked { state: None, listing: None, fault: Some(Fault::Halt) }
    );
}

fn image_with(parts: &[(u16, &[u8])]) -> Vec<u8> {
    let mut image = vec![0u8; 65536];
    for (at, bytes) in parts {
        image[*at as usize..*at as usize + bytes.len()].copy_from_slice(bytes);
    }
    image
}

#[test]
fn functional_test_needs_a_full_image() {
    assert!(matches!(FunctionalTest::new(&vec![0u8; 65535]), Err(MemError::ImageSize)));
    let test = FunctionalTest::new(&vec![0u8; 65536]).unwrap();
    assert_eq!(test.cpu().pc, 0x0400);
    assert_eq!(test.cycle_count(), 0);
}

#[test]
fn functional_test_passes_at_the_success_address() {
    // CLD ; LDX #$FF ; TXS ; JMP $3469, and the success address jumps to itself
    let image = image_with(&[(0x0400, &[0xD8, 0xA2, 0xFF, 0x9A, 0x4C, 0x69, 0x34]), (0x3469, &[0x4C, 0x69, 0x34])]);
    let mut test = FunctionalTest::new(&image).unwrap();
    assert!(!test.has_passed());
    assert_eq!(test.run(3), Outcome::Running);
    assert_eq!(test.cycle_count(), 3);
    assert_eq!(test.run(1_000), Outcome::Passed);
    assert_eq!(test.cpu().pc, 0x3469);
    assert_eq!(test.cpu().s, 0xFF);
    // 2 + 2 + 2 + 3 cycles
    assert_eq!(test.cycle_count(), 9);
    assert!(test.has_passed());
    assert_eq!(test.run(10), Outcome::Passed);
    assert_eq!(test.cycle_count(), 9);
}

#[test]
fn functional_test_detects_a_trap() {
    // LDA #$01 ; CMP #$02 ; BNE trap... the trap is a jump to itself
    let image = image_with(&[(0x0400, &[0xA9, 0x01, 0xC9, 0x02, 0xD0, 0x03, 0x4C, 0x69, 0x34, 0x4C, 0x09, 0x04])]);
    let mut test = FunctionalTest::new(&image).unwrap();
    assert!(!test.is_trap());
    assert_eq!(test.run(1_000), Outcome::Trapped(0x0409));
    assert!(test.is_trap());
    assert_eq!(test.cpu().pc, 0x0409);
    // the trap is seen as soon as the branch has set the program counter
    assert_eq!(test.cycle_count(), 5);
}

#[test]
fn functional_test_reports_faults() {
    let image = image_with(&[(0x0400, &[0xEA, 0x02])]);
    let mut test = FunctionalTest::new(&image).unwrap();
    assert_eq!(test.run(100), Outcome::Faulted(Fault::Halt));
    assert_eq!(test.cycle_count(), 2);
}

#[test]
fn disassembly_window_round_the_program_counter() {
    let image = image_with(&[(0x0400, &[1, 2, 3, 4, 5, 6, 7, 8, 9])]);
    let test = FunctionalTest::new(&image).unwrap();
    let rows = test.disassembly_window(0x0400);
    assert_eq!(rows.len(), 17);
    assert_eq!(rows[0], (0x03F6, 0, 0, 0));
    assert_eq!(rows[9], (0x03FF, 0, 1, 2));
    assert_eq!(rows[10], (0x0400, 1, 2, 3));
    assert_eq!(rows[16], (0x0406, 7, 8, 9));
    let low = test.disassembly_window(0x0003);
    assert_eq!(low.len(), 10);
    assert_eq!(low[0].0, 0);
    let high = test.disassembly_window(0xFFFE);
    assert_eq!(high.len(), 12);
    assert_eq!(high[11], (0xFFFF, 0, 0, 0));
    assert_eq!(test.mem().get_byte(0x0400), 1);
}
