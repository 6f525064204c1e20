use atari800_rs::addressable::Addressable;
use atari800_rs::alu::{adc_value, asl_value, difference_value, flags_value, lsr_value, rol_value, ror_value, sbc_value, status_value, Flags};
use atari800_rs::cpu_table::{cycles_of, AccessType, AddrMode, CpuTable, Op};
use atari800_rs::framebuffer::Framebuffer;
use atari800_rs::gtia::Gtia;
use atari800_rs::mem::MemorySequence;
use atari800_rs::mem_controller::MemController;
use atari800_rs::pia::Pia;
use atari800_rs::pokey::Pokey;

#[test]
fn binary_carry_is_the_ninth_bit_for_all_operands() {
    for a in 0..=255u16 {
        for m in (0..=255u16).step_by(7) {
            for c in [false, true] {
                let sum = adc_value(a as u8, m as u8, c, false);
                let total = a + m + c as u16;
                assert_eq!(sum.val, (total & 0xFF) as u8);
                assert_eq!(sum.carry, total > 0xFF);
                let signed = (a as u8 as i8) as i16 + (m as u8 as i8) as i16 + c as i16;
                assert_eq!(sum.overflow, !(-128..=127).contains(&signed));
                let diff = sbc_value(a as u8, m as u8, c, false);
                let full = a as i16 - m as i16 - (1 - c as i16);
                assert_eq!(diff.val, (full & 0xFF) as u8);
                assert_eq!(diff.carry, full >= 0);
            }
        }
    }
}

#[test]
fn decimal_arithmetic_is_arithmetic_on_decimal_numbers() {
    let bcd = |n: u32| (((n / 10) << 4) | (n % 10)) as u8;
    for a in 0..100u32 {
        for m in 0..100u32 {
            for c in [false, true] {
                let sum = adc_value(bcd(a), bcd(m), c, true);
                let total = a + m + c as u32;
                assert_eq!(sum.val, bcd(total % 100));
                assert_eq!(sum.carry, total >= 100);
                let diff = sbc_value(bcd(a), bcd(m), c, true);
                let full = a as i32 - m as i32 - (1 - c as i32);
                assert_eq!(diff.val, bcd(((full + 100) % 100) as u32));
                assert_eq!(diff.carry, full >= 0);
            }
        }
    }
}

#[test]
fn shifts_move_bits_through_the_carry() {
    assert_eq!((asl_value(0x81).val, asl_value(0x81).carry), (0x02, true));
    assert_eq!((lsr_value(0x81).val, lsr_value(0x81).carry), (0x40, true));
    assert_eq!((rol_value(0x80, true).val, rol_value(0x80, true).carry), (0x01, true));
    assert_eq!((ror_value(0x01, true).val, ror_value(0x01, true).carry), (0x80, true));
    assert_eq!((ror_value(0x02, false).val, ror_value(0x02, false).carry), (0x01, false));
    assert_eq!((difference_value(0x10, 0x20).val, difference_value(0x10, 0x20).carry), (0xF0, false));
}

#[test]
fn status_byte_round_trip() {
    for bits in 0..64u8 {
        let f = Flags {
            n: bits & 1 != 0,
            v: bits & 2 != 0,
            d: bits & 4 != 0,
            i: bits & 8 != 0,
            z: bits & 16 != 0,
            c: bits & 32 != 0,
        };
        for b in [false, true] {
            let status = status_value(f, b);
            assert_eq!(status & 0x20, 0x20);
            assert_eq!(status & 0x10 != 0, b);
            assert_eq!(flags_value(status), f);
        }
    }
    let all = Flags { n: true, v: true, d: true, i: true, z: true, c: true };
    assert_eq!(status_value(all, true), 0xFF);
    assert_eq!(flags_value(0x30), Flags { n: false, v: false, d: false, i: false, z: false, c: false });
}

#[test]
fn opcode_table_entries() {
    let table = CpuTable::new();
    assert_eq!(table.lookup(0xA9), (Op::LDA, AddrMode::IMM));
    assert_eq!(table.lookup(0x6C), (Op::JMP, AddrMode::IND));
    assert_eq!(table.lookup(0xEB), (Op::SBC, AddrMode::IMM));
    assert_eq!(table.lookup(0xBE), (Op::LDX, AddrMode::ABY));
    assert_eq!(table.lookup(0x02), (Op::HLT, AddrMode::IMP));
    assert_eq!(table.opcode_info[0x00], (Op::BRK, AddrMode::IMP));
    assert_eq!(table.opcode_info[0xFF], (Op::ISC, AddrMode::ABX));
    assert_eq!(cycles_of(0x00), 7);
    assert_eq!(cycles_of(0xEA), 2);
    assert_eq!(cycles_of(0x6C), 5);
    assert_eq!(cycles_of(0xFF), 7);
    for opcode in 0..=255u8 {
        assert!((2..=8).contains(&cycles_of(opcode)));
    }
}

#[test]
fn access_types_of_operations() {
    let table = CpuTable::new();
    assert_eq!(table.access_type(Op::LDA), AccessType::READ);
    assert_eq!(table.access_type(Op::CMP), AccessType::READ);
    assert_eq!(table.access_type(Op::STA), AccessType::WRITE);
    assert_eq!(table.access_type(Op::SHY), AccessType::WRITE);
    assert_eq!(table.access_type(Op::ASL), AccessType::MODIFY);
    assert_eq!(table.access_type(Op::DCP), AccessType::MODIFY);
    assert_eq!(table.access_type(Op::JMP), AccessType::CUSTOM);
    assert_eq!(table.access_type(Op::PHA), AccessType::CUSTOM);
}

#[test]
fn pia_ports_mix_outputs_and_inputs() {
    let mut pia = Pia::new();
    assert_eq!(pia.read_register(0xD300), 0xFF);
    pia.set_porta_input(0x5A);
    assert_eq!(pia.read_register(0xD300), 0x5A);
    pia.write_register(0xD301, 0xF0);
    pia.write_register(0xD300, 0x3C);
    assert_eq!(pia.read_register(0xD300), 0x3A);
    assert_eq!(pia.read_register(0xD301), 0xF0);
    pia.set_portb_input(0x01);
    pia.write_register(0xD303, 0xFF);
    pia.write_register(0xD302, 0x80);
    assert_eq!(pia.read_register(0xD302), 0x80);
    assert_eq!(pia.read_register(0xD3FF), 0xFF);
    let before = pia;
    pia.tick();
    assert_eq!(pia, before);
}

#[test]
fn pokey_registers_decode_by_the_low_nibble() {
    let mut pokey = Pokey::new();
    for reg in 0..8u16 {
        assert_eq!(pokey.read_register(0xD200 + reg), 0xFF);
    }
    assert_eq!(pokey.read_register(0xD208), 0x00);
    assert_eq!(pokey.read_register(0xD209), 0xFF);
    assert_eq!(pokey.read_register(0xD20A), 0x00);
    assert_eq!(pokey.read_register(0xD20B), 0xFF);
    assert_eq!(pokey.read_register(0xD20C), 0xFF);
    assert_eq!(pokey.read_register(0xD2FD), 0x00);
    // writes latch without showing in the read registers
    pokey.write_register(0xD200, 0x12);
    pokey.write_register(0xD20E, 0x34);
    assert_eq!(pokey.read_register(0xD200), 0xFF);
    assert_eq!(pokey.read_register(0xD20E), 0x00);
}

#[test]
fn pokey_random_register_follows_its_shift_register() {
    let mut pokey = Pokey::new();
    let mut seed: u8 = 0xFF;
    for _ in 0..300 {
        pokey.tick();
        seed = (seed << 1) | ((seed >> 7) ^ ((seed >> 5) & 1));
        assert_eq!(pokey.read_register(0xD20A), seed);
    }
}

#[test]
fn gtia_registers() {
    let mut gtia = Gtia::new();
    for reg in 0..0x10u16 {
        assert_eq!(gtia.read_register(0xD000 + reg), 0);
    }
    for reg in 0x10..0x14u16 {
        assert_eq!(gtia.read_register(0xD000 + reg), 1);
    }
    for reg in 0x14..0x1Fu16 {
        assert_eq!(gtia.read_register(0xD000 + reg), 0xFF);
    }
    assert_eq!(gtia.read_register(0xD01F), 0);
    gtia.write_register(0xD01F, 0x07);
    assert_eq!(gtia.read_register(0xD01F), 0x07);
    assert_eq!(gtia.read_register(0xD03F), 0x07);
    gtia.write_register(0xD01E, 0x00);
    for reg in 0..0x10u16 {
        assert_eq!(gtia.read_register(0xD000 + reg), 0);
    }
    // colour registers choose what a colour index shows
    gtia.write_register(0xD01A, 0x00);
    gtia.write_register(0xD016, 0x0E);
    gtia.write_register(0xD017, 0x12);
    gtia.write_register(0xD018, 0x24);
    assert_eq!(gtia.get_color_for_index(0), (0, 0, 0));
    assert_eq!(gtia.get_color_for_index(1), (255, 255, 255));
    assert_eq!(gtia.get_color_for_index(2), (89, 67, 0));
    assert_eq!(gtia.get_color_for_index(3), (159, 89, 0));
    assert_eq!(gtia.get_color_for_index(4), (0, 0, 0));
}

#[test]
fn gtia_palette_ignores_bit_zero() {
    let gtia = Gtia::new();
    assert_eq!(gtia.color_to_rgb(0x00), (0, 0, 0));
    assert_eq!(gtia.color_to_rgb(0x01), (0, 0, 0));
    assert_eq!(gtia.color_to_rgb(0x02), (25, 25, 25));
    assert_eq!(gtia.color_to_rgb(0x0F), (255, 255, 255));
    assert_eq!(gtia.color_to_rgb(0x10), (65, 45, 0));
    assert_eq!(gtia.color_to_rgb(0x94), (0, 94, 139));
    assert_eq!(gtia.color_to_rgb(0xFE), (255, 255, 151));
    assert_eq!(gtia.color_to_rgb(0xFF), (255, 255, 151));
}

#[test]
fn gtia_paints_scanlines_and_clears() {
    let mut gtia = Gtia::new();
    gtia.write_register(0xD01A, 0x94);
    gtia.write_register(0xD016, 0x0E);
    gtia.clear_framebuffer();
    assert!(gtia.framebuffer().pixels().chunks(3).all(|p| p == [0, 94, 139]));
    let mut line = [0u8; 384];
    line[5] = 1;
    line[319] = 1;
    line[320] = 1;
    gtia.render_scanline(7, &line);
    let row = gtia.framebuffer().get_scanline(7);
    assert_eq!(&row[15..18], &[255, 255, 255]);
    assert_eq!(&row[12..15], &[0, 94, 139]);
    assert_eq!(&row[957..960], &[255, 255, 255]);
    assert_eq!(gtia.framebuffer().get_scanline(6)[15], 0);
    assert_eq!(gtia.framebuffer().get_scanline(8)[15], 0);
    // a scanline below the picture changes nothing
    let before = gtia.framebuffer().pixels().to_vec();
    gtia.render_scanline(192, &line);
    assert_eq!(gtia.framebuffer().pixels(), &before[..]);
}

#[test]
fn gtia_beam_wraps_at_the_end_of_line_and_frame() {
    let mut gtia = Gtia::new();
    for _ in 0..228 * 262 {
        gtia.tick();
    }
    gtia.write_register(0xD01F, 1);
    assert_eq!(gtia.read_register(0xD01F), 1);
}

#[test]
fn framebuffer_pixels() {
    let mut fb = Framebuffer::new(4, 3);
    assert_eq!((fb.width(), fb.height()), (4, 3));
    assert_eq!(fb.pixels().len(), 36);
    fb.set_pixel(1, 2, 10, 20, 30);
    assert_eq!(&fb.pixels()[27..30], &[10, 20, 30]);
    assert_eq!(fb.get_scanline(2), &[0, 0, 0, 10, 20, 30, 0, 0, 0, 0, 0, 0]);
    // outside the picture nothing happens
    fb.set_pixel(4, 0, 1, 1, 1);
    fb.set_pixel(0, 3, 1, 1, 1);
    assert_eq!(fb.pixels().iter().filter(|&&p| p != 0).count(), 3);
    fb.get_scanline_mut(1)[0] = 99;
    assert_eq!(fb.pixels()[12], 99);
    fb.clear_color(1, 2, 3);
    assert!(fb.pixels().chunks(3).all(|p| p == [1, 2, 3]));
    fb.clear();
    assert!(fb.pixels().iter().all(|&p| p == 0));
    let empty = Framebuffer::new(0, 5);
    assert_eq!(empty.pixels().len(), 0);
    assert_eq!(empty.get_scanline(4).len(), 0);
}

#[test]
fn address_decoder_asks_ranges_in_order() {
    let mut controller: MemController<u32> = MemController::new(0);
    assert_eq!(*controller.get_target(0x1234), 0);
    controller.register_range(0x1000..0x2000, 1);
    controller.register_range(0x1800..0x3000, 2);
    assert_eq!(*controller.get_target(0x0FFF), 0);
    assert_eq!(*controller.get_target(0x1000), 1);
    assert_eq!(*controller.get_target(0x1800), 1);
    assert_eq!(*controller.get_target(0x1FFF), 1);
    assert_eq!(*controller.get_target(0x2000), 2);
    assert_eq!(*controller.get_target(0x2FFF), 2);
    assert_eq!(*controller.get_target(0x3000), 0);
    controller.register_default(9);
    assert_eq!(*controller.get_target(0x3000), 9);
    assert_eq!(*controller.get_target(0x1000), 1);
    controller.register_range(0x5000..0x5000, 3);
    assert_eq!(*controller.get_target(0x5000), 9);
}

#[test]
fn address_decoder_forwards_to_its_targets() {
    let mut controller: MemController<MemorySequence> = MemController::new(MemorySequence::new(0x10000, 0, false));
    controller.register_range(0x1000..0x1010, MemorySequence::new(0x10, 0x1000, true));
    controller.register_range(0x1008..0x1020, MemorySequence::new(0x20, 0x1000, true));
    assert!(controller.can_set(0x1000));
    assert!(controller.can_set(0x101F));
    assert!(!controller.can_set(0x1020));
    assert!(!controller.can_set(0x0FFF));
    controller.set_byte(0x1008, 0xAA);
    controller.set_byte(0x1010, 0xBB);
    assert_eq!(controller.get_byte(0x1008), 0xAA);
    assert_eq!(controller.get_byte(0x1010), 0xBB);
    assert_eq!(controller.get_byte(0x1009), 0);
    assert_eq!(controller.get_byte(0x2000), 0);
    // the first range took the write at 0x1008, the second did not
    assert_eq!(controller.find(0x1008), 0);
    assert_eq!(controller.find(0x1010), 1);
    assert_eq!(controller.find(0x3000), 2);
    controller.set_word(0x100F, 0x1234);
    assert_eq!(controller.get_word(0x100F), 0x1234);
    assert_eq!(controller.get_byte(0x100F), 0x34);
    assert_eq!(controller.get_byte(0x1010), 0x12);
}
