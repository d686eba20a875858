use term_8::emulator::Emulator;
use term_8::model::Fault;
use term_8::opcodes::{check, execute, execute_with, try_execute};

fn machine_with(program: &[u8]) -> Emulator {
    let mut emulator = Emulator::new();
    emulator.load_rom(program);
    emulator
}

fn lit_pixels(emulator: &Emulator) -> Vec<usize> {
    (0..2048).filter(|&p| emulator.display[p]).collect()
}

fn same_state(a: &Emulator, b: &Emulator) -> bool {
    a.memory == b.memory
        && a.v == b.v
        && a.i == b.i
        && a.pc == b.pc
        && a.stack == b.stack
        && a.sp == b.sp
        && a.delay_timer == b.delay_timer
        && a.sound_timer == b.sound_timer
        && a.keypad == b.keypad
        && a.display == b.display
        && a.paused == b.paused
        && a.waiting_for_key == b.waiting_for_key
        && a.ghost_display == b.ghost_display
}

#[test]
fn three_cycles_add_five_and_three() {
    let mut emulator = machine_with(&[0x60, 0x05, 0x61, 0x03, 0x80, 0x14, 0x00, 0x00]);
    emulator.cycle();
    emulator.cycle();
    emulator.cycle();
    assert_eq!(emulator.v[0], 8);
    assert_eq!(emulator.v[1], 3);
    assert_eq!(emulator.v[0xF], 0);
    assert_eq!(emulator.pc, 0x206);
}

#[test]
fn sprite_rows_below_the_display_change_nothing() {
    let mut emulator = Emulator::new();
    emulator.i = 0x300;
    emulator.memory[0x300] = 0x00;
    emulator.memory[0x301] = 0xFF;
    emulator.memory[0x302] = 0xFF;
    emulator.v[0] = 10;
    emulator.v[1] = 31;
    emulator.v[0xF] = 1;
    execute(&mut emulator, 0xD013);
    assert_eq!(lit_pixels(&emulator), Vec::<usize>::new());
    assert_eq!(emulator.v[0xF], 0);
    assert_eq!(emulator.pc, 0x202);
}

#[test]
fn sprite_is_cut_at_the_bottom_edge() {
    let mut emulator = Emulator::new();
    emulator.i = 0x300;
    for k in 0..5 {
        emulator.memory[0x300 + k] = 0x80;
    }
    emulator.v[2] = 0;
    emulator.v[3] = 30;
    execute(&mut emulator, 0xD235);
    assert_eq!(lit_pixels(&emulator), vec![30 * 64, 31 * 64]);
    assert_eq!(emulator.v[0xF], 0);
}

#[test]
fn sprite_is_cut_at_the_right_edge() {
    let mut emulator = Emulator::new();
    emulator.i = 0x300;
    emulator.memory[0x300] = 0xFF;
    emulator.memory[0x301] = 0xFF;
    emulator.v[2] = 62;
    emulator.v[3] = 4;
    execute(&mut emulator, 0xD232);
    assert_eq!(lit_pixels(&emulator), vec![4 * 64 + 62, 4 * 64 + 63, 5 * 64 + 62, 5 * 64 + 63]);
    assert_eq!(emulator.v[0xF], 0);
}

#[test]
fn sprite_start_wraps_into_the_display() {
    let mut emulator = Emulator::new();
    emulator.i = 0x300;
    emulator.memory[0x300] = 0xC0;
    emulator.v[0] = 70;
    emulator.v[1] = 35;
    execute(&mut emulator, 0xD011);
    assert_eq!(lit_pixels(&emulator), vec![3 * 64 + 6, 3 * 64 + 7]);
}

#[test]
fn draw_reads_font_glyph() {
    let mut emulator = Emulator::new();
    emulator.i = 5;
    emulator.v[0] = 0;
    emulator.v[1] = 0;
    execute(&mut emulator, 0xD015);
    // the glyph for 1: 0x20 0x60 0x20 0x20 0x70
    assert_eq!(
        lit_pixels(&emulator),
        vec![2, 64 + 1, 64 + 2, 128 + 2, 192 + 2, 256 + 1, 256 + 2, 256 + 3]
    );
    assert_eq!(emulator.v[0xF], 0);
}

#[test]
fn drawing_twice_erases_and_flags_collision() {
    let mut emulator = Emulator::new();
    emulator.i = 0;
    emulator.v[4] = 12;
    emulator.v[5] = 7;
    execute(&mut emulator, 0xD455);
    assert_eq!(emulator.v[0xF], 0);
    assert!(!lit_pixels(&emulator).is_empty());
    execute(&mut emulator, 0xD455);
    assert_eq!(emulator.v[0xF], 1);
    assert_eq!(lit_pixels(&emulator), Vec::<usize>::new());
    assert_eq!(emulator.pc, 0x204);
}

#[test]
fn collision_flag_stays_set_after_later_pixels() {
    let mut emulator = Emulator::new();
    emulator.i = 0x300;
    emulator.memory[0x300] = 0xFF;
    emulator.display[0] = true;
    emulator.v[0] = 0;
    emulator.v[1] = 0;
    execute(&mut emulator, 0xD011);
    assert_eq!(emulator.v[0xF], 1);
    assert_eq!(lit_pixels(&emulator), vec![1, 2, 3, 4, 5, 6, 7]);
}

#[test]
fn collision_on_a_clipped_pixel_does_not_count() {
    let mut emulator = Emulator::new();
    emulator.i = 0x300;
    emulator.memory[0x300] = 0x03;
    // the two set bits would land on columns 64 and 65, which wrap nowhere
    emulator.display[0] = true;
    emulator.display[1] = true;
    emulator.display[64] = true;
    emulator.v[0] = 58;
    emulator.v[1] = 0;
    execute(&mut emulator, 0xD011);
    assert_eq!(emulator.v[0xF], 0);
    assert_eq!(lit_pixels(&emulator), vec![0, 1, 64]);
}

#[test]
fn draw_uses_coordinates_read_before_the_flag_is_cleared() {
    let mut emulator = Emulator::new();
    emulator.i = 0x300;
    emulator.memory[0x300] = 0x80;
    emulator.v[0xF] = 9;
    execute(&mut emulator, 0xDFF1);
    assert_eq!(lit_pixels(&emulator), vec![9 * 64 + 9]);
    assert_eq!(emulator.v[0xF], 0);
}

#[test]
fn zero_height_sprite_draws_nothing() {
    let mut emulator = Emulator::new();
    emulator.i = 0xFFFF;
    emulator.v[0xF] = 1;
    assert_eq!(check(&emulator, 0xD010), None);
    execute(&mut emulator, 0xD010);
    assert_eq!(lit_pixels(&emulator), Vec::<usize>::new());
    assert_eq!(emulator.v[0xF], 0);
}

#[test]
fn clear_screen_clears_every_pixel() {
    let mut emulator = Emulator::new();
    emulator.display[0] = true;
    emulator.display[1000] = true;
    emulator.display[2047] = true;
    execute(&mut emulator, 0x00E0);
    assert_eq!(lit_pixels(&emulator), Vec::<usize>::new());
    assert_eq!(emulator.pc, 0x202);
}

#[test]
fn call_then_return_resumes_after_the_call() {
    let mut emulator = Emulator::new();
    emulator.pc = 0x234;
    emulator.sp = 3;
    execute(&mut emulator, 0x2ABC);
    assert_eq!(emulator.pc, 0xABC);
    assert_eq!(emulator.sp, 4);
    assert_eq!(emulator.stack[3], 0x234);
    execute(&mut emulator, 0x00EE);
    assert_eq!(emulator.pc, 0x236);
    assert_eq!(emulator.sp, 3);
}

#[test]
fn nested_calls_return_in_reverse_order() {
    let mut emulator = Emulator::new();
    execute(&mut emulator, 0x2300);
    execute(&mut emulator, 0x2400);
    assert_eq!(emulator.sp, 2);
    execute(&mut emulator, 0x00EE);
    assert_eq!(emulator.pc, 0x302);
    execute(&mut emulator, 0x00EE);
    assert_eq!(emulator.pc, 0x202);
    assert_eq!(emulator.sp, 0);
}

#[test]
fn sixteen_nested_calls_fit() {
    let mut emulator = Emulator::new();
    for depth in 0..16 {
        assert_eq!(try_execute(&mut emulator, 0x2300), Ok(()));
        assert_eq!(emulator.sp, depth + 1);
    }
    assert_eq!(try_execute(&mut emulator, 0x2300), Err(Fault::StackOverflow));
    assert_eq!(emulator.sp, 16);
    assert_eq!(emulator.pc, 0x300);
}

#[test]
fn jump_sets_the_program_counter() {
    let mut emulator = Emulator::new();
    execute(&mut emulator, 0x1FFF);
    assert_eq!(emulator.pc, 0xFFF);
    assert_eq!(emulator.sp, 0);
}

#[test]
fn jump_with_offset_adds_v0() {
    let mut emulator = Emulator::new();
    emulator.v[0] = 0xFF;
    emulator.v[1] = 0x10;
    execute(&mut emulator, 0xBFFF);
    assert_eq!(emulator.pc, 0x10FE);
    execute(&mut emulator, 0xB100);
    assert_eq!(emulator.pc, 0x1FF);
}

#[test]
fn skip_if_equal_byte() {
    let mut emulator = Emulator::new();
    emulator.v[3] = 0x42;
    execute(&mut emulator, 0x3342);
    assert_eq!(emulator.pc, 0x204);
    execute(&mut emulator, 0x3343);
    assert_eq!(emulator.pc, 0x206);
}

#[test]
fn skip_if_not_equal_byte() {
    let mut emulator = Emulator::new();
    emulator.v[3] = 0x42;
    execute(&mut emulator, 0x4342);
    assert_eq!(emulator.pc, 0x202);
    execute(&mut emulator, 0x4343);
    assert_eq!(emulator.pc, 0x206);
}

#[test]
fn skip_if_registers_equal() {
    let mut emulator = Emulator::new();
    emulator.v[1] = 7;
    emulator.v[2] = 7;
    emulator.v[3] = 8;
    execute(&mut emulator, 0x5120);
    assert_eq!(emulator.pc, 0x204);
    execute(&mut emulator, 0x5130);
    assert_eq!(emulator.pc, 0x206);
}

#[test]
fn skip_if_registers_differ() {
    let mut emulator = Emulator::new();
    emulator.v[1] = 7;
    emulator.v[2] = 7;
    emulator.v[3] = 8;
    execute(&mut emulator, 0x9120);
    assert_eq!(emulator.pc, 0x202);
    execute(&mut emulator, 0x9130);
    assert_eq!(emulator.pc, 0x206);
}

#[test]
fn register_skips_ignore_the_low_nibble() {
    let mut emulator = Emulator::new();
    emulator.v[1] = 7;
    emulator.v[2] = 7;
    execute(&mut emulator, 0x512F);
    assert_eq!(emulator.pc, 0x204);
    execute(&mut emulator, 0x912F);
    assert_eq!(emulator.pc, 0x206);
}

#[test]
fn skip_if_key_pressed() {
    let mut emulator = Emulator::new();
    emulator.v[0] = 0xA;
    emulator.keypad[0xA] = true;
    execute(&mut emulator, 0xE09E);
    assert_eq!(emulator.pc, 0x204);
    emulator.keypad[0xA] = false;
    execute(&mut emulator, 0xE09E);
    assert_eq!(emulator.pc, 0x206);
}

#[test]
fn skip_if_key_not_pressed() {
    let mut emulator = Emulator::new();
    emulator.v[0] = 0xA;
    emulator.keypad[0xA] = true;
    execute(&mut emulator, 0xE0A1);
    assert_eq!(emulator.pc, 0x202);
    emulator.keypad[0xA] = false;
    execute(&mut emulator, 0xE0A1);
    assert_eq!(emulator.pc, 0x206);
}

#[test]
fn words_that_are_no_instruction_only_advance() {
    for word in [0x0000u16, 0x0123, 0x00E1, 0x8008, 0x812F, 0xE000, 0xE19F, 0xF000, 0xF1FF, 0xF066] {
        let mut emulator = Emulator::new();
        emulator.v[1] = 0x33;
        emulator.i = 0x123;
        let before = emulator.clone();
        execute(&mut emulator, word);
        assert_eq!(emulator.pc, 0x202);
        emulator.pc = 0x200;
        assert!(same_state(&emulator, &before));
    }
}

#[test]
fn load_and_add_byte() {
    let mut emulator = Emulator::new();
    execute(&mut emulator, 0x6AFE);
    assert_eq!(emulator.v[0xA], 0xFE);
    execute(&mut emulator, 0x7A03);
    assert_eq!(emulator.v[0xA], 0x01);
    assert_eq!(emulator.v[0xF], 0);
    assert_eq!(emulator.pc, 0x204);
}

#[test]
fn copy_or_and_xor() {
    let mut emulator = Emulator::new();
    emulator.v[1] = 0b1100_1010;
    emulator.v[2] = 0b1010_0110;
    execute(&mut emulator, 0x8320);
    assert_eq!(emulator.v[3], 0b1010_0110);
    execute(&mut emulator, 0x8311);
    assert_eq!(emulator.v[3], 0b1110_1110);
    execute(&mut emulator, 0x8122);
    assert_eq!(emulator.v[1], 0b1000_0010);
    execute(&mut emulator, 0x8323);
    assert_eq!(emulator.v[3], 0b0100_1000);
    assert_eq!(emulator.v[0xF], 0);
    assert_eq!(emulator.pc, 0x208);
}

#[test]
fn add_sets_the_carry_for_every_pair() {
    for a in 0..=255u8 {
        for b in 0..=255u8 {
            let mut emulator = Emulator::new();
            emulator.v[1] = a;
            emulator.v[2] = b;
            execute(&mut emulator, 0x8124);
            assert_eq!(emulator.v[1], a.wrapping_add(b));
            assert_eq!(emulator.v[0xF] == 1, a as u16 + b as u16 > 255);
            assert!(emulator.v[0xF] <= 1);
        }
    }
}

#[test]
fn sub_sets_no_borrow_for_every_pair() {
    for a in 0..=255u8 {
        for b in 0..=255u8 {
            let mut emulator = Emulator::new();
            emulator.v[1] = a;
            emulator.v[2] = b;
            execute(&mut emulator, 0x8125);
            assert_eq!(emulator.v[1], a.wrapping_sub(b));
            assert_eq!(emulator.v[0xF] == 1, a >= b);
            assert!(emulator.v[0xF] <= 1);
        }
    }
}

#[test]
fn subn_sets_no_borrow_for_every_pair() {
    for a in 0..=255u8 {
        for b in 0..=255u8 {
            let mut emulator = Emulator::new();
            emulator.v[1] = a;
            emulator.v[2] = b;
            execute(&mut emulator, 0x8127);
            assert_eq!(emulator.v[1], b.wrapping_sub(a));
            assert_eq!(emulator.v[0xF] == 1, b >= a);
            assert!(emulator.v[0xF] <= 1);
        }
    }
}

#[test]
fn add_exact_values() {
    let mut emulator = Emulator::new();
    emulator.v[1] = 200;
    emulator.v[2] = 100;
    execute(&mut emulator, 0x8124);
    assert_eq!(emulator.v[1], 44);
    assert_eq!(emulator.v[0xF], 1);
    emulator.v[1] = 255;
    emulator.v[2] = 0;
    execute(&mut emulator, 0x8124);
    assert_eq!(emulator.v[1], 255);
    assert_eq!(emulator.v[0xF], 0);
}

#[test]
fn flag_wins_when_the_target_is_vf() {
    let mut emulator = Emulator::new();
    emulator.v[0xF] = 200;
    emulator.v[2] = 100;
    execute(&mut emulator, 0x8F24);
    assert_eq!(emulator.v[0xF], 1);
    emulator.v[0xF] = 5;
    emulator.v[2] = 6;
    execute(&mut emulator, 0x8F25);
    assert_eq!(emulator.v[0xF], 0);
    emulator.v[0xF] = 5;
    emulator.v[2] = 6;
    execute(&mut emulator, 0x8F27);
    assert_eq!(emulator.v[0xF], 1);
}

#[test]
fn shift_right_keeps_the_low_bit_for_every_byte() {
    for a in 0..=255u8 {
        let mut emulator = Emulator::new();
        emulator.v[4] = a;
        emulator.v[5] = 0xFF;
        execute(&mut emulator, 0x8456);
        assert_eq!(emulator.v[0xF], a & 1);
        assert_eq!(emulator.v[4], a / 2);
        assert_eq!(emulator.v[5], 0xFF);
    }
}

#[test]
fn shift_left_keeps_the_high_bit_for_every_byte() {
    for a in 0..=255u8 {
        let mut emulator = Emulator::new();
        emulator.v[4] = a;
        emulator.v[5] = 0xFF;
        execute(&mut emulator, 0x845E);
        assert_eq!(emulator.v[0xF], a >> 7);
        assert_eq!(emulator.v[4], (a as u16 * 2 % 256) as u8);
        assert_eq!(emulator.v[5], 0xFF);
    }
}

#[test]
fn shifting_vf_shifts_the_flag_just_written() {
    let mut emulator = Emulator::new();
    emulator.v[0xF] = 0x01;
    execute(&mut emulator, 0x8F06);
    assert_eq!(emulator.v[0xF], 0);
    emulator.v[0xF] = 0x81;
    execute(&mut emulator, 0x8F0E);
    assert_eq!(emulator.v[0xF], 2);
}

#[test]
fn load_index() {
    let mut emulator = Emulator::new();
    execute(&mut emulator, 0xAABC);
    assert_eq!(emulator.i, 0xABC);
    assert_eq!(emulator.pc, 0x202);
}

#[test]
fn random_byte_is_masked() {
    let mut emulator = Emulator::new();
    execute_with(&mut emulator, 0xC30F, 0xAB);
    assert_eq!(emulator.v[3], 0x0B);
    execute_with(&mut emulator, 0xC3F0, 0xAB);
    assert_eq!(emulator.v[3], 0xA0);
    assert_eq!(emulator.pc, 0x204);
}

#[test]
fn random_instruction_stays_within_its_mask() {
    let mut emulator = Emulator::new();
    let mut seen = [false; 256];
    for _ in 0..2000 {
        emulator.pc = 0x200;
        execute(&mut emulator, 0xC53C);
        assert_eq!(emulator.v[5] & !0x3C, 0);
        assert_eq!(emulator.pc, 0x202);
        seen[emulator.v[5] as usize] = true;
    }
    assert!(seen.iter().filter(|&&s| s).count() > 1);
    emulator.v[5] = 0x77;
    execute(&mut emulator, 0xC500);
    assert_eq!(emulator.v[5], 0);
}

#[test]
fn execute_with_ignores_the_byte_elsewhere() {
    let mut a = Emulator::new();
    let mut b = Emulator::new();
    execute_with(&mut a, 0x6123, 0x00);
    execute_with(&mut b, 0x6123, 0xFF);
    assert!(same_state(&a, &b));
    assert_eq!(a.v[1], 0x23);
}

#[test]
fn key_wait_blocks_without_a_key() {
    let mut emulator = Emulator::new();
    execute(&mut emulator, 0xF70A);
    assert_eq!(emulator.waiting_for_key, Some(7));
    assert_eq!(emulator.pc, 0x200);
    assert_eq!(emulator.v[7], 0);
}

#[test]
fn key_wait_takes_the_lowest_pressed_key() {
    let mut emulator = Emulator::new();
    emulator.keypad[0xC] = true;
    emulator.keypad[0x3] = true;
    emulator.keypad[0x7] = true;
    emulator.waiting_for_key = Some(2);
    execute(&mut emulator, 0xF70A);
    assert_eq!(emulator.v[7], 3);
    assert_eq!(emulator.waiting_for_key, None);
    assert_eq!(emulator.pc, 0x202);
}

#[test]
fn key_wait_can_store_key_zero() {
    let mut emulator = Emulator::new();
    emulator.v[1] = 9;
    emulator.keypad[0] = true;
    emulator.keypad[0xF] = true;
    execute(&mut emulator, 0xF10A);
    assert_eq!(emulator.v[1], 0);
    assert_eq!(emulator.pc, 0x202);
}

#[test]
fn timers_move_to_and_from_registers() {
    let mut emulator = Emulator::new();
    emulator.v[1] = 60;
    emulator.v[2] = 30;
    execute(&mut emulator, 0xF115);
    execute(&mut emulator, 0xF218);
    assert_eq!(emulator.delay_timer, 60);
    assert_eq!(emulator.sound_timer, 30);
    execute(&mut emulator, 0xF307);
    assert_eq!(emulator.v[3], 60);
    assert_eq!(emulator.pc, 0x206);
}

#[test]
fn add_to_index_wraps() {
    let mut emulator = Emulator::new();
    emulator.i = 0x0FF0;
    emulator.v[1] = 0x20;
    execute(&mut emulator, 0xF11E);
    assert_eq!(emulator.i, 0x1010);
    assert_eq!(emulator.v[0xF], 0);
    emulator.i = 0xFFFF;
    emulator.v[1] = 2;
    execute(&mut emulator, 0xF11E);
    assert_eq!(emulator.i, 1);
}

#[test]
fn font_address_uses_the_low_nibble() {
    let mut emulator = Emulator::new();
    emulator.v[1] = 0x0A;
    execute(&mut emulator, 0xF129);
    assert_eq!(emulator.i, 50);
    emulator.v[1] = 0xF7;
    execute(&mut emulator, 0xF129);
    assert_eq!(emulator.i, 35);
    emulator.v[1] = 0xFF;
    execute(&mut emulator, 0xF129);
    assert_eq!(emulator.i, 75);
}

#[test]
fn decimal_digits_are_stored_at_index() {
    let mut emulator = Emulator::new();
    emulator.i = 0x400;
    emulator.v[6] = 254;
    execute(&mut emulator, 0xF633);
    assert_eq!(&emulator.memory[0x400..0x403], &[2, 5, 4]);
    emulator.v[6] = 7;
    execute(&mut emulator, 0xF633);
    assert_eq!(&emulator.memory[0x400..0x403], &[0, 0, 7]);
    assert_eq!(emulator.i, 0x400);
    assert_eq!(emulator.pc, 0x204);
}

#[test]
fn store_registers_is_inclusive_and_keeps_index() {
    let mut emulator = Emulator::new();
    for r in 0..16 {
        emulator.v[r] = 0x10 + r as u8;
    }
    emulator.i = 0x500;
    emulator.memory[0x504] = 0xEE;
    execute(&mut emulator, 0xF355);
    assert_eq!(&emulator.memory[0x500..0x505], &[0x10, 0x11, 0x12, 0x13, 0xEE]);
    assert_eq!(emulator.i, 0x500);
    execute(&mut emulator, 0xFF55);
    assert_eq!(emulator.memory[0x50F], 0x1F);
    assert_eq!(emulator.memory[0x510], 0);
}

#[test]
fn load_registers_is_inclusive_and_keeps_index() {
    let mut emulator = Emulator::new();
    for k in 0..16 {
        emulator.memory[0x600 + k] = 0xA0 + k as u8;
    }
    emulator.i = 0x600;
    emulator.v[3] = 0x77;
    execute(&mut emulator, 0xF265);
    assert_eq!(&emulator.v[0..4], &[0xA0, 0xA1, 0xA2, 0x77]);
    assert_eq!(emulator.i, 0x600);
    execute(&mut emulator, 0xF065);
    assert_eq!(emulator.v[0], 0xA0);
    assert_eq!(emulator.pc, 0x204);
}

#[test]
fn block_transfer_reaches_the_last_byte() {
    let mut emulator = Emulator::new();
    emulator.i = 4095;
    emulator.v[0] = 0x5A;
    assert_eq!(try_execute(&mut emulator, 0xF055), Ok(()));
    assert_eq!(emulator.memory[4095], 0x5A);
    assert_eq!(try_execute(&mut emulator, 0xF155), Err(Fault::AddressOutOfRange));
    assert_eq!(try_execute(&mut emulator, 0xF165), Err(Fault::AddressOutOfRange));
}

#[test]
fn return_on_empty_stack_is_an_underflow() {
    let mut emulator = Emulator::new();
    let before = emulator.clone();
    assert_eq!(check(&emulator, 0x00EE), Some(Fault::StackUnderflow));
    assert_eq!(try_execute(&mut emulator, 0x00EE), Err(Fault::StackUnderflow));
    assert!(same_state(&emulator, &before));
}

#[test]
fn stack_pointer_beyond_the_stack_is_an_overflow() {
    let mut emulator = Emulator::new();
    emulator.sp = 17;
    assert_eq!(try_execute(&mut emulator, 0x00EE), Err(Fault::StackOverflow));
    assert_eq!(try_execute(&mut emulator, 0x2300), Err(Fault::StackOverflow));
    assert_eq!(emulator.sp, 17);
    assert_eq!(emulator.pc, 0x200);
}

#[test]
fn key_number_above_fifteen_is_a_fault() {
    let mut emulator = Emulator::new();
    emulator.v[1] = 16;
    let before = emulator.clone();
    assert_eq!(try_execute(&mut emulator, 0xE19E), Err(Fault::KeyOutOfRange));
    assert_eq!(try_execute(&mut emulator, 0xE1A1), Err(Fault::KeyOutOfRange));
    assert!(same_state(&emulator, &before));
    emulator.v[1] = 15;
    assert_eq!(try_execute(&mut emulator, 0xE1A1), Ok(()));
    assert_eq!(emulator.pc, 0x204);
}

#[test]
fn decimal_digits_beyond_memory_are_a_fault() {
    let mut emulator = Emulator::new();
    emulator.i = 4094;
    let before = emulator.clone();
    assert_eq!(try_execute(&mut emulator, 0xF033), Err(Fault::AddressOutOfRange));
    assert!(same_state(&emulator, &before));
    emulator.i = 4093;
    emulator.v[0] = 123;
    assert_eq!(try_execute(&mut emulator, 0xF033), Ok(()));
    assert_eq!(&emulator.memory[4093..4096], &[1, 2, 3]);
}

#[test]
fn sprite_beyond_memory_is_a_fault() {
    let mut emulator = Emulator::new();
    emulator.i = 4095;
    let before = emulator.clone();
    assert_eq!(try_execute(&mut emulator, 0xD012), Err(Fault::AddressOutOfRange));
    assert!(same_state(&emulator, &before));
    assert_eq!(try_execute(&mut emulator, 0xD011), Ok(()));
    // rows that are cut off at the bottom are not read
    emulator.v[1] = 31;
    assert_eq!(try_execute(&mut emulator, 0xD01F), Ok(()));
}

#[test]
fn program_counter_overflow_is_a_fault() {
    let mut emulator = Emulator::new();
    emulator.pc = 0xFFFE;
    let before = emulator.clone();
    assert_eq!(try_execute(&mut emulator, 0x6123), Err(Fault::CounterOutOfRange));
    assert!(same_state(&emulator, &before));
    emulator.pc = 0xFFFC;
    emulator.v[1] = 1;
    assert_eq!(check(&emulator, 0x3101), Err::<(), Fault>(Fault::CounterOutOfRange).err());
    assert_eq!(check(&emulator, 0x3102), None);
    assert_eq!(try_execute(&mut emulator, 0x3102), Ok(()));
    assert_eq!(emulator.pc, 0xFFFE);
    assert_eq!(try_execute(&mut emulator, 0x1234), Ok(()));
    assert_eq!(emulator.pc, 0x234);
}

#[test]
fn return_to_the_last_address_is_a_fault() {
    let mut emulator = Emulator::new();
    emulator.sp = 1;
    emulator.stack[0] = 0xFFFE;
    assert_eq!(try_execute(&mut emulator, 0x00EE), Err(Fault::CounterOutOfRange));
    assert_eq!(emulator.sp, 1);
    emulator.stack[0] = 0xFFFD;
    assert_eq!(try_execute(&mut emulator, 0x00EE), Ok(()));
    assert_eq!(emulator.pc, 0xFFFF);
}

#[test]
fn blocked_key_wait_never_faults() {
    let mut emulator = Emulator::new();
    emulator.pc = 0xFFFF;
    assert_eq!(try_execute(&mut emulator, 0xF00A), Ok(()));
    assert_eq!(emulator.pc, 0xFFFF);
    assert_eq!(emulator.waiting_for_key, Some(0));
    emulator.keypad[4] = true;
    assert_eq!(try_execute(&mut emulator, 0xF00A), Err(Fault::CounterOutOfRange));
}

#[test]
fn check_accepts_what_can_run() {
    let emulator = Emulator::new();
    for word in [0x00E0u16, 0x1200, 0x2200, 0x6012, 0x8014, 0xA123, 0xC0FF, 0xD005, 0xF00A, 0xF033, 0xFFFF] {
        assert_eq!(check(&emulator, word), None);
    }
}

#[test]
fn instructions_leave_the_checkpoint_alone() {
    let mut emulator = Emulator::new();
    emulator.v[0] = 9;
    emulator.save_checkpoint();
    execute(&mut emulator, 0x6055);
    execute(&mut emulator, 0x00E0);
    let saved = emulator.checkpoint.as_ref().unwrap();
    assert_eq!(saved.v[0], 9);
    assert_eq!(saved.pc, 0x200);
}

#[test]
fn execute_leaves_a_faulting_machine_as_it_is() {
    // a return with an empty stack
    let mut emulator = Emulator::new();
    let before = emulator.clone();
    execute(&mut emulator, 0x00EE);
    assert!(same_state(&emulator, &before));
    // a call with a full stack
    emulator.sp = 16;
    let before = emulator.clone();
    execute(&mut emulator, 0x2300);
    assert!(same_state(&emulator, &before));
    // a key number above fifteen
    let mut emulator = Emulator::new();
    emulator.v[1] = 0x20;
    let before = emulator.clone();
    execute(&mut emulator, 0xE19E);
    execute(&mut emulator, 0xE1A1);
    assert!(same_state(&emulator, &before));
    // memory beyond the last byte
    let mut emulator = Emulator::new();
    emulator.i = 4094;
    emulator.v[0] = 123;
    emulator.v[3] = 9;
    let before = emulator.clone();
    execute(&mut emulator, 0xF033);
    execute(&mut emulator, 0xF355);
    execute(&mut emulator, 0xF365);
    execute(&mut emulator, 0xD003);
    assert!(same_state(&emulator, &before));
    // a program counter that would leave sixteen bits
    let mut emulator = Emulator::new();
    emulator.pc = 0xFFFE;
    let before = emulator.clone();
    execute(&mut emulator, 0x6123);
    execute(&mut emulator, 0x00E0);
    execute(&mut emulator, 0xC1FF);
    assert!(same_state(&emulator, &before));
}

#[test]
fn execute_with_leaves_a_faulting_machine_as_it_is() {
    let mut emulator = Emulator::new();
    emulator.pc = 0xFFFE;
    emulator.v[1] = 7;
    let before = emulator.clone();
    execute_with(&mut emulator, 0xC1FF, 0xAB);
    execute_with(&mut emulator, 0x00EE, 0);
    assert!(same_state(&emulator, &before));
    emulator.pc = 0xFFFD;
    execute_with(&mut emulator, 0xC1FF, 0xAB);
    assert_eq!(emulator.v[1], 0xAB);
    assert_eq!(emulator.pc, 0xFFFF);
}

#[test]
fn execute_keeps_the_checkpoint_on_a_fault() {
    let mut emulator = Emulator::new();
    emulator.v[2] = 5;
    emulator.save_checkpoint();
    emulator.v[2] = 6;
    execute(&mut emulator, 0x00EE);
    assert_eq!(emulator.v[2], 6);
    assert_eq!(emulator.checkpoint.as_ref().unwrap().v[2], 5);
}
