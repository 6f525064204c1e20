use atari800_rs::addressable::Addressable;
use atari800_rs::antic::Antic;
use atari800_rs::atari800::{Atari800, Board, Device};
use atari800_rs::bus::{make_word, split_word, Bus};
use atari800_rs::cpu_pins::CpuPins;
use atari800_rs::gtia::Gtia;
use atari800_rs::mem::{Mem, MemError, MemorySequence};

#[test]
fn ram_round_trip_on_every_kind_of_address() {
    let mut mem = Mem::blank(0);
    for addr in [0x0000u16, 0x00FF, 0x0100, 0x7FFF, 0xD400, 0xFFFF] {
        assert!(mem.can_set(addr));
        mem.set_byte(addr, 0xA5);
        assert_eq!(mem.get_byte(addr), 0xA5);
    }
    assert_eq!(mem.get_byte(0x0001), 0);
}

#[test]
fn rom_window_reads_rom_and_takes_no_write() {
    let mut rom = vec![0u8; 10240];
    rom[0] = 0x11;
    rom[10239] = 0x99;
    let mut mem = Mem::new(0xD800, false, &rom).unwrap();
    assert_eq!(mem.split(), 0xD800);
    assert_eq!(mem.get_byte(0xD800), 0x11);
    assert_eq!(mem.get_byte(0xFFFF), 0x99);
    assert!(!mem.can_set(0xD800));
    assert!(!mem.can_set(0xFFFF));
    assert!(mem.can_set(0xD7FF));
    mem.set_byte(0xD7FF, 0x42);
    assert_eq!(mem.get_byte(0xD7FF), 0x42);
    // the RAM plane behind the ROM window is not seen
    mem.load_ram(0xE000, &[0x77]);
    assert_eq!(mem.get_byte(0xE000), 0x00);
}

#[test]
fn split_below_the_rom_image_reads_zero() {
    let rom = vec![0xEEu8; 10240];
    let mem = Mem::new(0xC000, false, &rom).unwrap();
    assert_eq!(mem.get_byte(0xC000), 0x00);
    assert_eq!(mem.get_byte(0xD7FF), 0x00);
    assert_eq!(mem.get_byte(0xD800), 0xEE);
}

#[test]
fn memory_images_of_the_wrong_size_are_refused() {
    assert!(matches!(Mem::new(0xD800, false, &vec![0u8; 10239]), Err(MemError::ImageSize)));
    assert!(matches!(Mem::new(0xD800, false, &vec![0u8; 65536]), Err(MemError::ImageSize)));
    assert!(matches!(Mem::new(0, true, &vec![0u8; 10240]), Err(MemError::ImageSize)));
    assert!(matches!(Mem::new(0, true, &[]), Err(MemError::ImageSize)));
    assert!(Mem::new(0xD800, true, &vec![0u8; 65536]).is_ok());
}

#[test]
fn functional_test_image_fills_ram_and_has_no_rom() {
    let mut image = vec![0u8; 65536];
    image[0x0400] = 0xD8;
    image[0xFFFF] = 0x12;
    let mem = Mem::new(0xD800, true, &image).unwrap();
    assert_eq!(mem.split(), 0);
    assert_eq!(mem.get_byte(0x0400), 0xD8);
    assert_eq!(mem.get_byte(0xFFFF), 0x12);
    assert!(mem.can_set(0xFFFF));
}

#[test]
fn memory_sequence_maps_from_its_offset() {
    let mut seq = MemorySequence::new(16, 0x1000, true);
    assert_eq!(seq.len(), 16);
    assert!(seq.can_set(0x1000));
    assert!(seq.can_set(0x100F));
    assert!(!seq.can_set(0x1010));
    assert!(!seq.can_set(0x0FFF));
    seq.set_byte(0x1003, 9);
    assert_eq!(seq.get_byte(0x1003), 9);
    assert_eq!(seq.get_byte(0x1004), 0);
    let fixed = MemorySequence::new(4, 0, false);
    assert!(!fixed.can_set(0));
}

#[test]
fn memory_sequence_init_fills_from_the_start() {
    let mut seq = MemorySequence::new(10240, 0xD800, false);
    let mut image = vec![0u8; 10240];
    image[0] = 1;
    image[10239] = 2;
    seq.init(&image);
    assert_eq!(seq.get_byte(0xD800), 1);
    assert_eq!(seq.get_byte(0xFFFF), 2);
}

#[test]
fn words_are_little_endian() {
    assert_eq!(make_word(0x34, 0x12), 0x1234);
    assert_eq!(split_word(0x1234), (0x34, 0x12));
    let mut mem = Mem::blank(0);
    mem.set_word(0x2000, 0xBEEF);
    assert_eq!(mem.get_byte(0x2000), 0xEF);
    assert_eq!(mem.get_byte(0x2001), 0xBE);
    assert_eq!(mem.get_word(0x2000), 0xBEEF);
    // the second byte wraps round the end of the address space
    mem.set_word(0xFFFF, 0x1234);
    assert_eq!(mem.get_byte(0xFFFF), 0x34);
    assert_eq!(mem.get_byte(0x0000), 0x12);
    assert_eq!(mem.get_word(0xFFFF), 0x1234);
    let mut bus = Mem::blank(0);
    bus.write_word(0xFFFF, 0xCAFE);
    assert_eq!(bus.read_word(0xFFFF), 0xCAFE);
    assert_eq!(bus.read(0x0000), 0xCA);
}

#[test]
fn eight_bytes_of_a_character_cell() {
    let mut mem = Mem::blank(0);
    mem.load_ram(0xFFFC, &[1, 2, 3, 4]);
    mem.load_ram(0x0000, &[5, 6, 7, 8]);
    assert_eq!(mem.get_8_bytes(0xFFFC), [1, 2, 3, 4, 5, 6, 7, 8]);
}

fn board() -> Board {
    let rom = vec![0u8; 10240];
    Board::new(Mem::new(0xD800, false, &rom).unwrap())
}

#[test]
fn address_decoding_of_the_board() {
    let b = board();
    assert_eq!(b.device_for(0xCFFF), Device::Memory);
    assert_eq!(b.device_for(0xD000), Device::Gtia);
    assert_eq!(b.device_for(0xD0FF), Device::Gtia);
    assert_eq!(b.device_for(0xD100), Device::Memory);
    assert_eq!(b.device_for(0xD200), Device::Pokey);
    assert_eq!(b.device_for(0xD2FF), Device::Pokey);
    assert_eq!(b.device_for(0xD300), Device::Pia);
    assert_eq!(b.device_for(0xD3FF), Device::Pia);
    assert_eq!(b.device_for(0xD400), Device::Antic);
    assert_eq!(b.device_for(0xD4FF), Device::Antic);
    assert_eq!(b.device_for(0xD500), Device::Memory);
    assert_eq!(b.device_for(0xFFFF), Device::Memory);
}

#[test]
fn bus_writes_reach_the_chips() {
    let mut b = board();
    assert!(b.writable(0xD01A));
    b.write(0xD01A, 0x94); // background colour: write only
    assert_eq!(b.read(0xD01A), 0xFF);
    b.write(0xD03F, 0x05); // console switches, mirrored
    assert_eq!(b.read(0xD01F), 0x05);
    b.write(0xD301, 0xF0);
    assert_eq!(b.read(0xD301), 0xF0);
    assert_eq!(b.read(0xD305), 0xF0);
    b.write(0xD40E, 0x40);
    assert_eq!(b.read(0xD40E), 0xFF);
    assert_eq!(b.read(0xD40B), 0);
    assert_eq!(b.read(0xD20A), 0);
    assert_eq!(b.read(0xD209), 0xFF);
}

#[test]
fn bus_ram_round_trip_and_rom_protection() {
    let mut b = board();
    assert!(b.writable(0x1234));
    b.write(0x1234, 0x56);
    assert_eq!(b.read(0x1234), 0x56);
    assert!(b.writable(0xD100));
    b.write(0xD100, 0x07);
    assert_eq!(b.read(0xD100), 0x07);
    assert!(!b.writable(0xD800));
    assert!(!b.writable(0xFFFC));
    assert!(b.writable(0xD7FF));
}

fn tick_antic(antic: &mut Antic, mem: &Mem, n: u32) -> (u32, u32) {
    let mut nmis = 0;
    let mut stalls = 0;
    for _ in 0..n {
        let mut pins = CpuPins::new();
        antic.tick(mem, &mut pins);
        if pins.nmi {
            nmis += 1;
        }
        if pins.halt {
            stalls += 1;
        }
        assert_eq!(antic.get_byte(0xD40B) as u32, antic.scanline() >> 1);
    }
    (nmis, stalls)
}

#[test]
fn scanline_counter_visits_each_line_once_per_frame() {
    let mem = Mem::blank(0);
    let mut antic = Antic::new();
    let mut entered = vec![0u32; 262];
    let mut last = antic.scanline();
    for _ in 0..29868 {
        let mut pins = CpuPins::new();
        antic.tick(&mem, &mut pins);
        assert!(antic.color_clock() < 228);
        if antic.scanline() != last {
            assert_eq!(antic.color_clock(), 0);
            entered[antic.scanline() as usize] += 1;
            last = antic.scanline();
        }
        assert_eq!(antic.get_byte(0xD40B) as u32, antic.scanline() >> 1);
    }
    assert!(entered.iter().all(|&n| n == 1));
    assert_eq!(antic.scanline(), 0);
    assert_eq!(antic.color_clock(), 0);
}

#[test]
fn a_scanline_takes_114_ticks() {
    let mem = Mem::blank(0);
    let mut antic = Antic::new();
    tick_antic(&mut antic, &mem, 113);
    assert_eq!((antic.scanline(), antic.color_clock()), (0, 226));
    tick_antic(&mut antic, &mem, 1);
    assert_eq!((antic.scanline(), antic.color_clock()), (1, 0));
}

#[test]
fn vertical_blank_interrupt_fires_once_per_frame_when_enabled() {
    let mem = Mem::blank(0);
    let mut antic = Antic::new();
    antic.set_byte(0xD40E, 0x40);
    let (nmis, _) = tick_antic(&mut antic, &mem, 248 * 114 - 1);
    assert_eq!(nmis, 0);
    assert_eq!(antic.get_byte(0xD40F), 0x00);
    let (nmis, _) = tick_antic(&mut antic, &mem, 1);
    assert_eq!(nmis, 1);
    assert_eq!(antic.scanline(), 248);
    assert_eq!(antic.get_byte(0xD40F), 0x40);
    let (nmis, _) = tick_antic(&mut antic, &mem, 29868 - 1);
    assert_eq!(nmis, 0);
    let (nmis, _) = tick_antic(&mut antic, &mem, 29868);
    assert_eq!(nmis, 1);
    // writing the reset register clears the status
    antic.set_byte(0xD40F, 0xFF);
    assert_eq!(antic.get_byte(0xD40F), 0x00);
}

#[test]
fn vertical_blank_interrupt_stays_quiet_when_disabled() {
    let mem = Mem::blank(0);
    let mut antic = Antic::new();
    antic.set_byte(0xD40E, 0x80);
    let (nmis, stalls) = tick_antic(&mut antic, &mem, 29868);
    assert_eq!(nmis, 0);
    assert_eq!(stalls, 0);
    assert_eq!(antic.get_byte(0xD40F), 0x00);
}

#[test]
fn antic_registers_mirror_and_read_back() {
    let mut antic = Antic::new();
    assert_eq!(antic.map_addr(0xD41B), 0xD40B);
    assert_eq!(antic.map_addr(0xD4F2), 0xD402);
    antic.set_byte(0xD402, 0x34);
    antic.set_byte(0xD413, 0x12);
    assert_eq!(antic.initial_dl_counter(), 0x1234);
    assert_eq!(antic.dlist_cursor(), 0x1234);
    // write-only registers read as 0xFF
    for addr in [0xD400u16, 0xD401, 0xD402, 0xD403, 0xD404, 0xD405, 0xD406, 0xD407, 0xD408, 0xD409, 0xD40A, 0xD40E] {
        assert_eq!(antic.get_byte(addr), 0xFF);
    }
    assert_eq!(antic.get_byte(0xD40C), 0);
    assert_eq!(antic.get_byte(0xD40D), 0);
    antic.set_byte(0xD409, 0x00);
    assert_eq!(antic.char_base(), 0xE000);
    antic.set_byte(0xD409, 0xE1);
    assert_eq!(antic.char_base(), 0xE000);
    antic.set_byte(0xD409, 0x21);
    assert_eq!(antic.char_base(), 0x2000);
}

/// Memory with the standard display list at 0x2000, 24 rows of screen data
/// at 0x3000 and a font at 0xE000 in which each character's rows hold the
/// character code plus the row number.
fn text_screen() -> (Mem, Antic) {
    let mut mem = Mem::blank(0);
    let mut dl: Vec<u8> = vec![0x70, 0x70, 0x70, 0x42, 0x00, 0x30];
    dl.extend(std::iter::repeat(0x02).take(23));
    dl.extend([0x41, 0x00, 0x20]);
    mem.load_ram(0x2000, &dl);
    for row in 0..24u16 {
        for col in 0..40u16 {
            mem.set_byte(0x3000 + row * 40 + col, ((row + col) % 128) as u8);
        }
    }
    for ch in 0..128u16 {
        for line in 0..8u16 {
            mem.set_byte(0xE000 + ch * 8 + line, (ch + line) as u8);
        }
    }
    let mut antic = Antic::new();
    antic.set_byte(0xD402, 0x00);
    antic.set_byte(0xD403, 0x20);
    antic.set_byte(0xD400, 0x22);
    (mem, antic)
}

#[test]
fn display_list_frame_emits_24_text_rows_and_returns_to_base() {
    let (mem, mut antic) = text_screen();
    let mut rows = 0;
    let mut blank_lines = 0;
    let mut lines = 0;
    loop {
        let row_before = (antic.lines_remaining(), antic.mode_line());
        antic.process_scanline(&mem);
        lines += 1;
        if antic.current_mode() == 1 {
            break;
        }
        if antic.current_mode() == 0 {
            blank_lines += 1;
            assert!(antic.scanline_buffer().iter().all(|&p| p == 0));
        } else {
            assert_eq!(antic.current_mode(), 2);
            let line = if row_before.0 == 0 { 0 } else { row_before.1 as usize };
            let buffer = antic.scanline_buffer();
            for col in 0..40usize {
                let glyph = ((rows + col) % 128 + line) as u8;
                for k in 0..8usize {
                    let want = (glyph >> (7 - k)) & 1;
                    assert_eq!(buffer[col * 8 + k], want);
                }
            }
            assert!(buffer[320..].iter().all(|&p| p == 0));
            if antic.lines_remaining() == 0 {
                rows += 1;
                assert_eq!(antic.screen_cursor(), 0x3000 + 40 * rows as u16);
            }
        }
        assert!(lines < 1000);
    }
    assert_eq!(blank_lines, 24);
    assert_eq!(rows, 24);
    assert_eq!(lines, 24 + 192 + 1);
    assert_eq!(antic.dlist_cursor(), antic.initial_dl_counter());
    assert_eq!(antic.dlist_cursor(), 0x2000);
    assert_eq!(antic.lines_remaining(), 0);
}

#[test]
fn blank_instruction_counts_its_lines() {
    let mut mem = Mem::blank(0);
    mem.load_ram(0x2000, &[0x00, 0x30, 0x70]);
    let mut antic = Antic::new();
    antic.set_byte(0xD402, 0x00);
    antic.set_byte(0xD403, 0x20);
    antic.process_scanline(&mem);
    assert_eq!((antic.dlist_cursor(), antic.lines_remaining()), (0x2001, 0));
    antic.process_scanline(&mem);
    assert_eq!((antic.dlist_cursor(), antic.lines_remaining()), (0x2002, 3));
    for left in [2, 1, 0] {
        antic.process_scanline(&mem);
        assert_eq!(antic.lines_remaining(), left);
    }
    antic.process_scanline(&mem);
    assert_eq!((antic.dlist_cursor(), antic.lines_remaining()), (0x2003, 7));
}

#[test]
fn display_list_interrupt_fires_on_the_last_line_of_a_marked_row() {
    let mut mem = Mem::blank(0);
    mem.load_ram(0x2000, &[0x82, 0x02]);
    let mut antic = Antic::new();
    antic.set_byte(0xD402, 0x00);
    antic.set_byte(0xD403, 0x20);
    antic.set_byte(0xD40E, 0x80);
    for _ in 0..7 {
        assert!(!antic.process_scanline(&mem));
    }
    assert!(antic.process_scanline(&mem));
    assert_eq!(antic.get_byte(0xD40F), 0x80);
    for _ in 0..8 {
        assert!(!antic.process_scanline(&mem));
    }
    // with the interrupt disabled nothing fires
    let mut quiet = Antic::new();
    quiet.set_byte(0xD402, 0x00);
    quiet.set_byte(0xD403, 0x20);
    for _ in 0..8 {
        assert!(!quiet.process_scanline(&mem));
    }
    assert_eq!(quiet.get_byte(0xD40F), 0x00);
}

#[test]
fn graphics_rows_have_the_height_of_their_mode() {
    for (mode, height) in [(0x08u8, 8u8), (0x09, 4), (0x0A, 4), (0x0B, 2), (0x0C, 1), (0x0D, 2), (0x0E, 1), (0x0F, 1), (0x03, 8), (0x07, 8)] {
        let mut mem = Mem::blank(0);
        mem.load_ram(0x2000, &[mode]);
        let mut antic = Antic::new();
        antic.set_byte(0xD403, 0x20);
        antic.process_scanline(&mem);
        assert_eq!(antic.lines_remaining(), height - 1);
        assert_eq!(antic.current_mode(), mode);
    }
}

#[test]
fn dma_stalls_the_processor_at_the_start_of_visible_lines() {
    let (mem, mut antic) = text_screen();
    let (_, stalls) = tick_antic(&mut antic, &mem, 29868);
    // lines 1 to 191 are entered during the frame, and line 0 with its last tick
    assert_eq!(stalls, 192);
    let mut idle = Antic::new();
    let (_, stalls) = tick_antic(&mut idle, &mem, 29868);
    assert_eq!(stalls, 0);
}

#[test]
fn frame_render_paints_the_framebuffer() {
    let (mem, mut antic) = text_screen();
    let mut gtia = Gtia::new();
    gtia.write_register(0xD016, 0x0E); // playfield 0: white
    gtia.write_register(0xD01A, 0x94); // background: a blue
    antic.draw_frame(&mem, &mut gtia);
    let fb = gtia.framebuffer();
    assert_eq!((fb.width(), fb.height()), (320, 192));
    let background = gtia.color_to_rgb(0x94);
    let white = gtia.color_to_rgb(0x0E);
    assert_eq!(white, (255, 255, 255));
    // the first 24 lines are blank
    for y in 0..24 {
        let row = fb.get_scanline(y);
        assert_eq!((row[0], row[1], row[2]), background);
        assert_eq!((row[957], row[958], row[959]), background);
    }
    // line 24 is the first line of the first text row: glyph byte of column c is c
    let row = fb.get_scanline(24);
    for col in 0..40usize {
        for k in 0..8usize {
            let on = ((col as u8) >> (7 - k)) & 1 == 1;
            let x = col * 8 + k;
            let got = (row[3 * x], row[3 * x + 1], row[3 * x + 2]);
            assert_eq!(got, if on { white } else { background });
        }
    }
    // 192 lines were processed: 24 blank ones and 21 rows of text
    assert_eq!(antic.screen_cursor(), 0x3000 + 21 * 40);
}

fn rom_with_program() -> Vec<u8> {
    let mut rom = vec![0xEAu8; 10240];
    let at = |addr: u16| (addr - 0xD800) as usize;
    // reset: LDA #$40 ; STA $D40E ; CLD ; loop: JMP loop
    let program = [0xA9, 0x40, 0x8D, 0x0E, 0xD4, 0xD8, 0x4C, 0x06, 0xD8];
    rom[at(0xD800)..at(0xD800) + program.len()].copy_from_slice(&program);
    // nmi: INC $80 ; RTI
    let handler = [0xE6, 0x80, 0x40];
    rom[at(0xE000)..at(0xE000) + handler.len()].copy_from_slice(&handler);
    rom[at(0xFFFA)] = 0x00;
    rom[at(0xFFFB)] = 0xE0;
    rom[at(0xFFFC)] = 0x00;
    rom[at(0xFFFD)] = 0xD8;
    rom
}

#[test]
fn machine_construction_checks_the_rom_size() {
    assert!(matches!(Atari800::new(&vec![0u8; 100]), Err(MemError::ImageSize)));
    let machine = Atari800::new(&rom_with_program()).unwrap();
    assert_eq!(machine.cpu().pc, 0xD800);
    assert_eq!(machine.cpu().s, 0xFD);
    assert!(machine.cpu().i);
    assert_eq!(*machine.pins(), CpuPins::new());
}

#[test]
fn machine_delivers_one_vertical_blank_interrupt_per_frame() {
    let mut machine = Atari800::new(&rom_with_program()).unwrap();
    for _ in 0..29868 {
        machine.tick().unwrap();
    }
    assert_eq!(machine.board().mem().get_byte(0x0080), 1);
    for _ in 0..29868 {
        machine.tick().unwrap();
    }
    assert_eq!(machine.board().mem().get_byte(0x0080), 2);
    assert_eq!(machine.cpu().pc, 0xD806);
    assert_eq!(machine.board().antic().get_byte(0xD40F), 0x40);
}

#[test]
fn machine_reports_a_fault_of_the_processor() {
    let mut rom = vec![0x02u8; 10240];
    rom[0xFFFC - 0xD800] = 0x00;
    rom[0xFFFD - 0xD800] = 0xD8;
    let mut machine = Atari800::new(&rom).unwrap();
    assert_eq!(machine.tick(), Err(atari800_rs::cpu::Fault::Halt));
}

#[test]
fn machine_ticks_the_other_chips() {
    let mut machine = Atari800::new(&rom_with_program()).unwrap();
    machine.tick().unwrap();
    // the random register has moved on from its seed 0xFF
    assert_eq!(machine.board().pokey().read_register(0xD20A), 0xFE);
    machine.tick().unwrap();
    assert_eq!(machine.board().pokey().read_register(0xD20A), 0xFC);
}

#[test]
fn machine_frame_render_fills_the_picture() {
    let mut machine = Atari800::new(&rom_with_program()).unwrap();
    machine.render_frame();
    let fb = machine.board().gtia().framebuffer();
    assert_eq!(fb.pixels().len(), 320 * 192 * 3);
    assert!(fb.pixels().iter().all(|&p| p == 0));
}
