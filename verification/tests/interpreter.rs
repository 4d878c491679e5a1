use chip8::cpu::Cpu;
use chip8::instruction::{decode, Instruction};
use chip8::outcome::{Event, Fault};

fn rom(words: &[u16]) -> Vec<u8> {
    let mut bytes = Vec::new();
    for w in words {
        bytes.push((w >> 8) as u8);
        bytes.push((w & 0xff) as u8);
    }
    bytes
}

fn machine(words: &[u16]) -> Cpu {
    Cpu::new(&rom(words))
}

fn run(cpu: &mut Cpu, cycles: usize) {
    for _ in 0..cycles {
        assert_eq!(cpu.next(), Ok(Event::Completed));
    }
}

#[test]
fn new_machine_is_at_rest() {
    let cpu = machine(&[0x00e0, 0x1200]);
    assert_eq!(cpu.register.pc, 0x200);
    assert_eq!(cpu.register.i, 0);
    assert_eq!(cpu.register.v, vec![0u8; 16]);
    assert!(cpu.register.stack.is_empty());
    assert_eq!(cpu.register.delay, 0);
    assert_eq!(cpu.register.sound, 0);
    assert_eq!(cpu.memory.data.len(), 4096);
    assert_eq!(&cpu.memory.data[0x200..0x204], &[0x00, 0xe0, 0x12, 0x00]);
    assert_eq!(&cpu.memory.data[0..5], &[0xf0, 0x90, 0x90, 0x90, 0xf0]);
    assert_eq!(&cpu.memory.data[75..80], &[0xf0, 0x80, 0xf0, 0x80, 0x80]);
    assert!(cpu.memory.data[80..0x200].iter().all(|b| *b == 0));
    assert!(cpu.memory.data[0x204..].iter().all(|b| *b == 0));
    assert!(cpu.display.get_buffer().iter().all(|p| !*p));
    assert_eq!(cpu.keyboard.state, vec![false; 16]);
}

#[test]
fn largest_rom_fills_memory_to_the_end() {
    let bytes = vec![0xabu8; 3584];
    let cpu = Cpu::new(&bytes);
    assert_eq!(cpu.memory.data.len(), 4096);
    assert_eq!(cpu.memory.data[0x200], 0xab);
    assert_eq!(cpu.memory.data[4095], 0xab);
    assert_eq!(cpu.memory.data[0x1ff], 0);
}

#[test]
fn empty_rom_leaves_program_area_zero() {
    let cpu = Cpu::new(&[]);
    assert!(cpu.memory.data[80..].iter().all(|b| *b == 0));
}

#[test]
fn add_byte_wraps_and_keeps_flag() {
    let mut cpu = machine(&[0x63f0, 0x6f01, 0x7320]);
    run(&mut cpu, 3);
    assert_eq!(cpu.register.v[3], 0x10);
    assert_eq!(cpu.register.v[0xf], 1);
    assert_eq!(cpu.register.pc, 0x206);
}

#[test]
fn add_byte_without_wrap() {
    let mut cpu = machine(&[0x6105, 0x7107]);
    run(&mut cpu, 2);
    assert_eq!(cpu.register.v[1], 12);
    assert_eq!(cpu.register.v[0xf], 0);
}

#[test]
fn add_registers_sets_carry_on_overflow() {
    let mut cpu = machine(&[0x61ff, 0x6202, 0x8124]);
    run(&mut cpu, 3);
    assert_eq!(cpu.register.v[1], 1);
    assert_eq!(cpu.register.v[2], 2);
    assert_eq!(cpu.register.v[0xf], 1);
}

#[test]
fn add_registers_clears_carry_at_255() {
    let mut cpu = machine(&[0x6ffe, 0x61fe, 0x6201, 0x8124]);
    run(&mut cpu, 4);
    assert_eq!(cpu.register.v[1], 255);
    assert_eq!(cpu.register.v[0xf], 0);
}

#[test]
fn add_into_flag_register_keeps_the_sum() {
    let mut cpu = machine(&[0x6fff, 0x6102, 0x8f14]);
    run(&mut cpu, 3);
    assert_eq!(cpu.register.v[0xf], 1);
    let mut cpu = machine(&[0x6f03, 0x6102, 0x8f14]);
    run(&mut cpu, 3);
    assert_eq!(cpu.register.v[0xf], 5);
}

#[test]
fn sub_sets_flag_when_minuend_is_greater() {
    let mut cpu = machine(&[0x610a, 0x6203, 0x8125]);
    run(&mut cpu, 3);
    assert_eq!(cpu.register.v[1], 7);
    assert_eq!(cpu.register.v[0xf], 1);
}

#[test]
fn sub_wraps_and_clears_flag_on_borrow() {
    let mut cpu = machine(&[0x6f01, 0x6103, 0x620a, 0x8125]);
    run(&mut cpu, 4);
    assert_eq!(cpu.register.v[1], 249);
    assert_eq!(cpu.register.v[0xf], 0);
}

#[test]
fn sub_of_equal_values_clears_flag() {
    let mut cpu = machine(&[0x6f01, 0x6107, 0x6207, 0x8125]);
    run(&mut cpu, 4);
    assert_eq!(cpu.register.v[1], 0);
    assert_eq!(cpu.register.v[0xf], 0);
}

#[test]
fn subn_subtracts_vx_from_vy() {
    let mut cpu = machine(&[0x6103, 0x620a, 0x8127]);
    run(&mut cpu, 3);
    assert_eq!(cpu.register.v[1], 7);
    assert_eq!(cpu.register.v[2], 10);
    assert_eq!(cpu.register.v[0xf], 1);
    let mut cpu = machine(&[0x610a, 0x6203, 0x8127]);
    run(&mut cpu, 3);
    assert_eq!(cpu.register.v[1], 249);
    assert_eq!(cpu.register.v[0xf], 0);
}

#[test]
fn shift_right_captures_low_bit() {
    let mut cpu = machine(&[0x6105, 0x8106]);
    run(&mut cpu, 2);
    assert_eq!(cpu.register.v[1], 2);
    assert_eq!(cpu.register.v[0xf], 1);
    let mut cpu = machine(&[0x6f01, 0x61fe, 0x8126]);
    run(&mut cpu, 3);
    assert_eq!(cpu.register.v[1], 0x7f);
    assert_eq!(cpu.register.v[0xf], 0);
}

#[test]
fn shift_left_captures_high_bit() {
    let mut cpu = machine(&[0x6181, 0x810e]);
    run(&mut cpu, 2);
    assert_eq!(cpu.register.v[1], 2);
    assert_eq!(cpu.register.v[0xf], 1);
    let mut cpu = machine(&[0x6f01, 0x617f, 0x812e]);
    run(&mut cpu, 3);
    assert_eq!(cpu.register.v[1], 0xfe);
    assert_eq!(cpu.register.v[0xf], 0);
}

#[test]
fn shift_of_flag_register_shifts_the_captured_bit() {
    let mut cpu = machine(&[0x6f03, 0x8f06]);
    run(&mut cpu, 2);
    assert_eq!(cpu.register.v[0xf], 0);
    let mut cpu = machine(&[0x6f81, 0x8f0e]);
    run(&mut cpu, 2);
    assert_eq!(cpu.register.v[0xf], 2);
}

#[test]
fn logic_operations() {
    let mut cpu = machine(&[0x610c, 0x620a, 0x8310, 0x8321, 0x8410, 0x8422, 0x8510, 0x8523]);
    run(&mut cpu, 8);
    assert_eq!(cpu.register.v[3], 0x0e);
    assert_eq!(cpu.register.v[4], 0x08);
    assert_eq!(cpu.register.v[5], 0x06);
    assert_eq!(cpu.register.v[0xf], 0);
}

#[test]
fn load_register_from_register() {
    let mut cpu = machine(&[0x6277, 0x8120]);
    run(&mut cpu, 2);
    assert_eq!(cpu.register.v[1], 0x77);
}

#[test]
fn unknown_arithmetic_nibble_is_reported() {
    let mut cpu = machine(&[0x8128]);
    assert_eq!(cpu.next(), Ok(Event::UnknownOpcode(0x8128)));
    assert_eq!(cpu.register.pc, 0x202);
}

#[test]
fn jump_sets_program_counter() {
    let mut cpu = machine(&[0x1abc]);
    run(&mut cpu, 1);
    assert_eq!(cpu.register.pc, 0xabc);
}

#[test]
fn jump_with_offset_adds_v0() {
    let mut cpu = machine(&[0x60ff, 0xbfff]);
    run(&mut cpu, 2);
    assert_eq!(cpu.register.pc, 0x10fe);
}

#[test]
fn call_then_return_resumes_after_call() {
    let mut cpu = machine(&[0x2206, 0x6001, 0x1204, 0x00ee]);
    run(&mut cpu, 1);
    assert_eq!(cpu.register.pc, 0x206);
    assert_eq!(cpu.register.stack, vec![0x202]);
    run(&mut cpu, 1);
    assert_eq!(cpu.register.pc, 0x202);
    assert!(cpu.register.stack.is_empty());
    run(&mut cpu, 1);
    assert_eq!(cpu.register.v[0], 1);
}

#[test]
fn return_on_empty_stack_is_underflow() {
    let mut cpu = machine(&[0x00ee]);
    assert_eq!(cpu.next(), Err(Fault::StackUnderflow));
    assert_eq!(cpu.register.pc, 0x202);
    assert!(cpu.register.stack.is_empty());
}

#[test]
fn seventeenth_nested_call_is_overflow() {
    let mut cpu = machine(&[0x2200]);
    for depth in 0..16 {
        assert_eq!(cpu.next(), Ok(Event::Completed));
        assert_eq!(cpu.register.stack.len(), depth + 1);
        assert_eq!(cpu.register.pc, 0x200);
    }
    assert_eq!(cpu.next(), Err(Fault::StackOverflow));
    assert_eq!(cpu.register.stack, vec![0x202; 16]);
    assert_eq!(cpu.register.pc, 0x202);
}

#[test]
fn skip_if_equal_byte() {
    let mut cpu = machine(&[0x6142, 0x3142]);
    run(&mut cpu, 2);
    assert_eq!(cpu.register.pc, 0x206);
    let mut cpu = machine(&[0x6142, 0x3143]);
    run(&mut cpu, 2);
    assert_eq!(cpu.register.pc, 0x204);
}

#[test]
fn skip_if_not_equal_byte() {
    let mut cpu = machine(&[0x6142, 0x4143]);
    run(&mut cpu, 2);
    assert_eq!(cpu.register.pc, 0x206);
    let mut cpu = machine(&[0x6142, 0x4142]);
    run(&mut cpu, 2);
    assert_eq!(cpu.register.pc, 0x204);
}

#[test]
fn skip_if_registers_equal() {
    let mut cpu = machine(&[0x6142, 0x6242, 0x5120]);
    run(&mut cpu, 3);
    assert_eq!(cpu.register.pc, 0x208);
    let mut cpu = machine(&[0x6142, 0x6243, 0x5120]);
    run(&mut cpu, 3);
    assert_eq!(cpu.register.pc, 0x206);
}

#[test]
fn skip_if_registers_differ() {
    let mut cpu = machine(&[0x6142, 0x6243, 0x9120]);
    run(&mut cpu, 3);
    assert_eq!(cpu.register.pc, 0x208);
    let mut cpu = machine(&[0x6142, 0x6242, 0x9120]);
    run(&mut cpu, 3);
    assert_eq!(cpu.register.pc, 0x206);
}

#[test]
fn register_compare_ignores_low_nibble() {
    let mut cpu = machine(&[0x5127, 0x912f]);
    run(&mut cpu, 1);
    assert_eq!(cpu.register.pc, 0x204);
    assert_eq!(decode(0x5127), Instruction::SkipIfSame { x: 1, y: 2 });
    assert_eq!(decode(0x912f), Instruction::SkipUnlessSame { x: 1, y: 2 });
}

#[test]
fn load_index() {
    let mut cpu = machine(&[0xa123]);
    run(&mut cpu, 1);
    assert_eq!(cpu.register.i, 0x123);
}

#[test]
fn add_index_without_overflow() {
    let mut cpu = machine(&[0x6f01, 0xa100, 0x6120, 0xf11e]);
    run(&mut cpu, 4);
    assert_eq!(cpu.register.i, 0x120);
    assert_eq!(cpu.register.v[0xf], 0);
}

#[test]
fn add_index_past_twelve_bits_keeps_raw_sum() {
    let mut cpu = machine(&[0xaffe, 0x6105, 0xf11e]);
    run(&mut cpu, 3);
    assert_eq!(cpu.register.i, 0x1003);
    assert_eq!(cpu.register.v[0xf], 1);
}

#[test]
fn add_index_at_twelve_bit_limit() {
    let mut cpu = machine(&[0xaffe, 0x6101, 0xf11e]);
    run(&mut cpu, 3);
    assert_eq!(cpu.register.i, 0xfff);
    assert_eq!(cpu.register.v[0xf], 0);
}

#[test]
fn add_index_wraps_at_sixteen_bits() {
    let mut cpu = machine(&[0x6102, 0xf11e]);
    cpu.register.i = 0xffff;
    run(&mut cpu, 2);
    assert_eq!(cpu.register.i, 1);
    assert_eq!(cpu.register.v[0xf], 1);
}

#[test]
fn add_index_with_flag_register_adds_the_flag() {
    let mut cpu = machine(&[0x6f09, 0xa100, 0xff1e]);
    run(&mut cpu, 3);
    assert_eq!(cpu.register.v[0xf], 0);
    assert_eq!(cpu.register.i, 0x100);
}

#[test]
fn timers_set_read_and_tick() {
    let mut cpu = machine(&[0x6102, 0xf115, 0xf118, 0xf207]);
    run(&mut cpu, 3);
    assert_eq!(cpu.register.delay, 2);
    assert_eq!(cpu.register.sound, 2);
    cpu.decrement_timers();
    assert_eq!(cpu.register.delay, 1);
    assert_eq!(cpu.register.sound, 1);
    run(&mut cpu, 1);
    assert_eq!(cpu.register.v[2], 1);
    cpu.decrement_timers();
    cpu.decrement_timers();
    assert_eq!(cpu.register.delay, 0);
    assert_eq!(cpu.register.sound, 0);
    assert_eq!(cpu.register.pc, 0x208);
}

#[test]
fn timers_tick_independently() {
    let mut cpu = machine(&[0x6103, 0xf118]);
    run(&mut cpu, 2);
    cpu.decrement_timers();
    assert_eq!(cpu.register.delay, 0);
    assert_eq!(cpu.register.sound, 2);
}

#[test]
fn bcd_of_234() {
    let mut cpu = machine(&[0x61ea, 0xa300, 0xf133]);
    run(&mut cpu, 3);
    assert_eq!(&cpu.memory.data[0x300..0x303], &[2, 3, 4]);
    assert_eq!(cpu.register.i, 0x300);
}

#[test]
fn bcd_of_7() {
    let mut cpu = machine(&[0x6107, 0xa300, 0xf133]);
    cpu.memory.data[0x300] = 9;
    cpu.memory.data[0x301] = 9;
    run(&mut cpu, 3);
    assert_eq!(&cpu.memory.data[0x300..0x303], &[0, 0, 7]);
}

#[test]
fn bcd_of_255_at_last_addresses() {
    let mut cpu = machine(&[0x61ff, 0xaffd, 0xf133]);
    run(&mut cpu, 3);
    assert_eq!(&cpu.memory.data[0xffd..0x1000], &[2, 5, 5]);
}

#[test]
fn bcd_past_end_of_memory_is_fault() {
    let mut cpu = machine(&[0x61ff, 0xaffe, 0xf133]);
    run(&mut cpu, 2);
    assert_eq!(cpu.next(), Err(Fault::OutOfBoundsMemoryAccess));
    assert_eq!(&cpu.memory.data[0xffe..0x1000], &[0, 0]);
    assert_eq!(cpu.register.pc, 0x206);
}

#[test]
fn save_registers_to_memory() {
    let mut cpu = machine(&[0x6011, 0x6122, 0x6233, 0x6344, 0xa400, 0xf255]);
    run(&mut cpu, 6);
    assert_eq!(&cpu.memory.data[0x400..0x404], &[0x11, 0x22, 0x33, 0]);
    assert_eq!(cpu.register.i, 0x400);
}

#[test]
fn load_registers_from_memory() {
    let mut cpu = machine(&[0x6399, 0xa208, 0xf265, 0x0000, 0x0102, 0x0304]);
    run(&mut cpu, 3);
    assert_eq!(&cpu.register.v[0..4], &[1, 2, 3, 0x99]);
    assert_eq!(cpu.register.i, 0x208);
}

#[test]
fn save_all_registers_up_to_last_byte() {
    let mut cpu = machine(&[0x6f5a, 0xaff0, 0xff55]);
    run(&mut cpu, 3);
    assert_eq!(cpu.memory.data[0xfff], 0x5a);
}

#[test]
fn save_past_end_of_memory_is_fault() {
    let mut cpu = machine(&[0x6f5a, 0x6077, 0xaff1, 0xff55]);
    run(&mut cpu, 3);
    assert_eq!(cpu.next(), Err(Fault::OutOfBoundsMemoryAccess));
    assert_eq!(cpu.memory.data[0xff1], 0);
}

#[test]
fn load_past_end_of_memory_is_fault() {
    let mut cpu = machine(&[0x6123, 0xafff, 0xf165]);
    run(&mut cpu, 2);
    assert_eq!(cpu.next(), Err(Fault::OutOfBoundsMemoryAccess));
    assert_eq!(cpu.register.v[0], 0);
    assert_eq!(cpu.register.v[1], 0x23);
}

#[test]
fn glyph_address_of_digit_a() {
    let mut cpu = machine(&[0x610a, 0xf129]);
    run(&mut cpu, 2);
    assert_eq!(cpu.register.i, 50);
    let at = cpu.register.i as usize;
    assert_eq!(&cpu.memory.data[at..at + 5], &[0xf0, 0x90, 0xf0, 0x90, 0x90]);
}

#[test]
fn glyph_a_renders_canonical_bitmap() {
    let mut cpu = machine(&[0x610a, 0xf129, 0x6203, 0x6304, 0xd235]);
    run(&mut cpu, 5);
    let rows: [u8; 5] = [0xf0, 0x90, 0xf0, 0x90, 0x90];
    for y in 0..32usize {
        for x in 0..64usize {
            let lit = y >= 4 && y < 9 && x >= 3 && x < 11
                && rows[y - 4] & (0x80 >> (x - 3)) != 0;
            assert_eq!(cpu.display.get_pixel(x, y), lit);
        }
    }
    assert_eq!(cpu.register.v[0xf], 0);
}

#[test]
fn glyph_of_value_above_f_is_fault() {
    let mut cpu = machine(&[0x6110, 0xa123, 0xf129]);
    run(&mut cpu, 2);
    assert_eq!(cpu.next(), Err(Fault::OutOfBoundsMemoryAccess));
    assert_eq!(cpu.register.i, 0x123);
}

#[test]
fn every_glyph_address_is_five_times_digit() {
    for d in 0..16u16 {
        let mut cpu = machine(&[0x6100 | d, 0xf129]);
        run(&mut cpu, 2);
        assert_eq!(cpu.register.i, 5 * d);
    }
}

#[test]
fn wait_key_holds_until_key_and_takes_lowest() {
    let mut cpu = machine(&[0x6477, 0xf40a, 0x6001]);
    run(&mut cpu, 1);
    for _ in 0..5 {
        assert_eq!(cpu.next(), Ok(Event::AwaitingKey));
        assert_eq!(cpu.register.pc, 0x202);
        assert_eq!(cpu.register.v[4], 0x77);
    }
    cpu.keyboard.set_key(0xb, true);
    assert_eq!(cpu.next(), Ok(Event::Completed));
    assert_eq!(cpu.register.v[4], 0xb);
    assert_eq!(cpu.register.pc, 0x204);
    run(&mut cpu, 1);
    assert_eq!(cpu.register.v[0], 1);
}

#[test]
fn wait_key_with_several_keys_takes_lowest_index() {
    let mut cpu = machine(&[0xf20a]);
    cpu.keyboard.set_key(0xe, true);
    cpu.keyboard.set_key(0x3, true);
    cpu.keyboard.set_key(0x9, true);
    assert_eq!(cpu.next(), Ok(Event::Completed));
    assert_eq!(cpu.register.v[2], 3);
    assert_eq!(cpu.register.pc, 0x202);
}

#[test]
fn wait_key_sees_key_zero() {
    let mut cpu = machine(&[0x6205, 0xf20a]);
    cpu.keyboard.set_key(0, true);
    run(&mut cpu, 2);
    assert_eq!(cpu.register.v[2], 0);
    assert_eq!(cpu.register.pc, 0x204);
}

#[test]
fn skip_if_key_pressed() {
    let mut cpu = machine(&[0x6105, 0xe19e]);
    cpu.keyboard.set_key(5, true);
    run(&mut cpu, 2);
    assert_eq!(cpu.register.pc, 0x206);
    let mut cpu = machine(&[0x6105, 0xe19e]);
    cpu.keyboard.set_key(6, true);
    run(&mut cpu, 2);
    assert_eq!(cpu.register.pc, 0x204);
}

#[test]
fn skip_if_key_not_pressed() {
    let mut cpu = machine(&[0x6105, 0xe1a1]);
    run(&mut cpu, 2);
    assert_eq!(cpu.register.pc, 0x206);
    let mut cpu = machine(&[0x6105, 0xe1a1]);
    cpu.keyboard.set_key(5, true);
    run(&mut cpu, 2);
    assert_eq!(cpu.register.pc, 0x204);
}

#[test]
fn key_index_above_f_is_fault() {
    let mut cpu = machine(&[0x6110, 0xe19e]);
    run(&mut cpu, 1);
    assert_eq!(cpu.next(), Err(Fault::OutOfBoundsMemoryAccess));
    assert_eq!(cpu.register.pc, 0x204);
    let mut cpu = machine(&[0x61ff, 0xe1a1]);
    run(&mut cpu, 1);
    assert_eq!(cpu.next(), Err(Fault::OutOfBoundsMemoryAccess));
}

#[test]
fn unknown_key_and_timer_words_are_reported() {
    let mut cpu = machine(&[0xe100, 0xf1ff]);
    assert_eq!(cpu.next(), Ok(Event::UnknownOpcode(0xe100)));
    assert_eq!(cpu.next(), Ok(Event::UnknownOpcode(0xf1ff)));
    assert_eq!(cpu.register.pc, 0x204);
}

#[test]
fn unrecognized_word_does_not_stop_the_machine() {
    let mut cpu = machine(&[0x0fff, 0x6142]);
    assert_eq!(cpu.next(), Ok(Event::UnknownOpcode(0x0fff)));
    assert_eq!(cpu.register.pc, 0x202);
    assert_eq!(cpu.register.v, vec![0u8; 16]);
    assert_eq!(cpu.next(), Ok(Event::Completed));
    assert_eq!(cpu.register.v[1], 0x42);
    assert_eq!(cpu.register.pc, 0x204);
}

#[test]
fn zeroed_memory_is_unknown_word_zero() {
    let mut cpu = Cpu::new(&[]);
    assert_eq!(cpu.next(), Ok(Event::UnknownOpcode(0)));
    assert_eq!(cpu.register.pc, 0x202);
}

#[test]
fn fetch_past_end_of_memory_is_fault() {
    let mut cpu = machine(&[0x1fff]);
    run(&mut cpu, 1);
    assert_eq!(cpu.next(), Err(Fault::OutOfBoundsMemoryAccess));
    assert_eq!(cpu.register.pc, 0xfff);
}

#[test]
fn fetch_of_last_word_succeeds() {
    let mut cpu = machine(&[0x1ffe]);
    cpu.memory.data[0xffe] = 0x61;
    cpu.memory.data[0xfff] = 0x09;
    run(&mut cpu, 2);
    assert_eq!(cpu.register.v[1], 9);
    assert_eq!(cpu.register.pc, 0x1000);
    assert_eq!(cpu.next(), Err(Fault::OutOfBoundsMemoryAccess));
    assert_eq!(cpu.register.pc, 0x1000);
}

#[test]
fn get_next_u16_reads_big_endian_and_advances() {
    let mut cpu = machine(&[0xa1b2]);
    assert_eq!(cpu.get_next_u16(), Ok(0xa1b2));
    assert_eq!(cpu.register.pc, 0x202);
}

#[test]
fn random_is_masked_by_operand() {
    let mut cpu = machine(&[0xc10f, 0x1200]);
    for _ in 0..200 {
        run(&mut cpu, 2);
        assert!(cpu.register.v[1] <= 0x0f);
    }
    let mut cpu = machine(&[0x61ff, 0xc100]);
    run(&mut cpu, 2);
    assert_eq!(cpu.register.v[1], 0);
}

#[test]
fn random_draws_differ_over_time() {
    let mut cpu = machine(&[0xc1ff, 0x1200]);
    let mut seen = std::collections::HashSet::new();
    for _ in 0..400 {
        run(&mut cpu, 2);
        seen.insert(cpu.register.v[1]);
    }
    assert!(seen.len() > 1);
}

#[test]
fn execute_masks_given_random_byte() {
    let mut cpu = Cpu::new(&[]);
    assert_eq!(cpu.execute(decode(0xc23c), 0xa5), Ok(Event::Completed));
    assert_eq!(cpu.register.v[2], 0x24);
    assert_eq!(cpu.register.pc, 0x200);
}

#[test]
fn clear_screen_blanks_display() {
    let mut cpu = machine(&[0xd005, 0x00e0]);
    run(&mut cpu, 1);
    assert!(cpu.display.get_buffer().iter().any(|p| *p));
    run(&mut cpu, 1);
    assert!(cpu.display.get_buffer().iter().all(|p| !*p));
}

#[test]
fn clear_screen_ignores_x_field() {
    assert_eq!(decode(0x01e0), Instruction::ClearScreen);
    assert_eq!(decode(0x0fee), Instruction::Return);
}

#[test]
fn draw_sets_collision_flag_on_second_draw() {
    let mut cpu = machine(&[0xa000, 0xd005, 0xd005]);
    run(&mut cpu, 2);
    assert_eq!(cpu.register.v[0xf], 0);
    assert!(cpu.display.get_pixel(0, 0));
    run(&mut cpu, 1);
    assert_eq!(cpu.register.v[0xf], 1);
    assert!(cpu.display.get_buffer().iter().all(|p| !*p));
}

#[test]
fn draw_of_zero_rows_changes_nothing() {
    let mut cpu = machine(&[0x6f01, 0xd000]);
    run(&mut cpu, 2);
    assert_eq!(cpu.register.v[0xf], 0);
    assert!(cpu.display.get_buffer().iter().all(|p| !*p));
}

#[test]
fn draw_reading_past_memory_is_fault() {
    let mut cpu = machine(&[0xaffe, 0xd003]);
    run(&mut cpu, 1);
    assert_eq!(cpu.next(), Err(Fault::OutOfBoundsMemoryAccess));
    assert!(cpu.display.get_buffer().iter().all(|p| !*p));
    let mut cpu = machine(&[0xaffe, 0xd002]);
    run(&mut cpu, 2);
}

#[test]
fn draw_wraps_coordinates_taken_from_registers() {
    let mut cpu = machine(&[0x60ff, 0x61ff, 0xa208, 0xd011, 0xff00]);
    run(&mut cpu, 4);
    for x in 0..64usize {
        for y in 0..32usize {
            let lit = y == 31 && (x == 63 || x < 7);
            assert_eq!(cpu.display.get_pixel(x, y), lit);
        }
    }
}

#[test]
fn fixture_rom_draws_digit_zero() {
    let program = [0x00e0, 0x600a, 0x6105, 0xa000, 0xd015, 0x1208];
    let mut cpu = machine(&program);
    run(&mut cpu, 6);
    let mut expected = vec![false; 2048];
    let glyph: [u8; 5] = [0xf0, 0x90, 0x90, 0x90, 0xf0];
    for (r, row) in glyph.iter().enumerate() {
        for c in 0..8 {
            if row & (0x80 >> c) != 0 {
                expected[(5 + r) * 64 + 10 + c] = true;
            }
        }
    }
    assert_eq!(cpu.display.get_buffer(), expected);
    assert!(expected.iter().any(|p| *p));
    assert_eq!(cpu.register.v[0xf], 0);
    let mut again = machine(&program);
    run(&mut again, 6);
    assert_eq!(again.display.get_buffer(), cpu.display.get_buffer());
}
