use chip8::{Engine, EngineError};

const NO_KEYS: [bool; 16] = [false; 16];

fn machine_with(program: &[u8]) -> Engine {
    let mut engine = Engine::new().unwrap();
    engine.load_game(program.to_vec()).unwrap();
    engine
}

#[test]
fn test_construction_preloads_font() {
    let engine = Engine::new().unwrap();
    assert_eq!(&engine.memory[0..5], &[0xF0, 0x90, 0x90, 0x90, 0xF0]);
    assert_eq!(&engine.memory[75..80], &[0xF0, 0x80, 0xF0, 0x80, 0x80]);
    assert_eq!(engine.program_counter, 0x200);
    assert_eq!(engine.stack_pointer, 0);
    assert!(engine.framebuffer.iter().all(|&p| p == 0));
    assert!(engine.registers.iter().all(|&v| v == 0));
}

#[test]
fn test_load_game_places_program() {
    let engine = machine_with(&[0x12, 0x34, 0x56]);
    assert_eq!(&engine.memory[0x200..0x203], &[0x12, 0x34, 0x56]);
    assert_eq!(engine.memory[0x203], 0);
}

#[test]
fn test_load_game_overflow() {
    let mut engine = Engine::new().unwrap();
    assert_eq!(engine.load_game(vec![0xAB; 3584]), Ok(()));
    assert_eq!(engine.memory[4095], 0xAB);
    let mut engine = Engine::new().unwrap();
    assert_eq!(
        engine.load_game(vec![0xAB; 3585]),
        Err(EngineError::OutOfBounds)
    );
    assert_eq!(engine.memory[0x200], 0);
}

#[test]
fn test_load_imm_reads_back() {
    let mut engine = machine_with(&[0x6A, 0x42]);
    assert_eq!(engine.tick(NO_KEYS), Ok(()));
    assert_eq!(engine.registers[0xA], 0x42);
    assert_eq!(engine.program_counter, 0x202);
}

#[test]
fn test_add_reg_carry_table() {
    let mut engine = machine_with(&[0x80, 0x14]);
    engine.registers[0] = 0x0A;
    engine.registers[1] = 0x05;
    assert_eq!(engine.tick(NO_KEYS), Ok(()));
    assert_eq!(engine.registers[0], 0x0F);
    assert_eq!(engine.registers[0xF], 0);

    let mut engine = machine_with(&[0x80, 0x14]);
    engine.registers[0] = 0xFF;
    engine.registers[1] = 0x01;
    assert_eq!(engine.tick(NO_KEYS), Ok(()));
    assert_eq!(engine.registers[0], 0x00);
    assert_eq!(engine.registers[0xF], 1);
}

#[test]
fn test_shift_right_sets_flag_to_lsb() {
    let mut engine = machine_with(&[0x80, 0x06]);
    engine.registers[0] = 0x03;
    assert_eq!(engine.tick(NO_KEYS), Ok(()));
    assert_eq!(engine.registers[0], 0x01);
    assert_eq!(engine.registers[0xF], 1);
}

#[test]
fn test_shift_left_sets_flag_to_msb() {
    let mut engine = machine_with(&[0x80, 0x0E]);
    engine.registers[0] = 0x81;
    assert_eq!(engine.tick(NO_KEYS), Ok(()));
    assert_eq!(engine.registers[0], 0x02);
    assert_eq!(engine.registers[0xF], 1);
}

#[test]
fn test_sub_and_subn_borrow_flags() {
    let mut engine = machine_with(&[0x80, 0x15]);
    engine.registers[0] = 5;
    engine.registers[1] = 10;
    assert_eq!(engine.tick(NO_KEYS), Ok(()));
    assert_eq!(engine.registers[0], 251);
    assert_eq!(engine.registers[0xF], 0);

    let mut engine = machine_with(&[0x80, 0x17]);
    engine.registers[0] = 5;
    engine.registers[1] = 10;
    assert_eq!(engine.tick(NO_KEYS), Ok(()));
    assert_eq!(engine.registers[0], 5);
    assert_eq!(engine.registers[0xF], 1);
}

#[test]
fn test_add_imm_wraps_without_flag() {
    let mut engine = machine_with(&[0x70, 0x02]);
    engine.registers[0] = 0xFF;
    engine.registers[0xF] = 7;
    assert_eq!(engine.tick(NO_KEYS), Ok(()));
    assert_eq!(engine.registers[0], 0x01);
    assert_eq!(engine.registers[0xF], 7);
}

#[test]
fn test_bitwise_ops() {
    let mut engine = machine_with(&[0x80, 0x11, 0x80, 0x22, 0x80, 0x33]);
    engine.registers[0] = 0b1100;
    engine.registers[1] = 0b1010;
    engine.registers[2] = 0b0110;
    engine.registers[3] = 0b0101;
    assert_eq!(engine.tick(NO_KEYS), Ok(()));
    assert_eq!(engine.registers[0], 0b1110);
    assert_eq!(engine.tick(NO_KEYS), Ok(()));
    assert_eq!(engine.registers[0], 0b0110);
    assert_eq!(engine.tick(NO_KEYS), Ok(()));
    assert_eq!(engine.registers[0], 0b0011);
}

#[test]
fn test_call_return_stack_discipline() {
    let mut engine = machine_with(&[0x22, 0x04, 0x00, 0x00, 0x00, 0xEE]);
    assert_eq!(engine.program_counter, 0x200);
    assert_eq!(engine.stack_pointer, 0);
    assert_eq!(engine.tick(NO_KEYS), Ok(()));
    assert_eq!(engine.program_counter, 0x204);
    assert_eq!(engine.stack_pointer, 1);
    assert_eq!(engine.stack[0], 0x202);
    assert_eq!(engine.tick(NO_KEYS), Ok(()));
    assert_eq!(engine.program_counter, 0x202);
    assert_eq!(engine.stack_pointer, 0);
}

#[test]
fn test_jump_is_a_fixed_point() {
    let mut engine = machine_with(&[0x12, 0x00]);
    let before = engine;
    for _ in 0..10 {
        assert_eq!(engine.tick(NO_KEYS), Ok(()));
        assert_eq!(engine.program_counter, 0x200);
        assert_eq!(engine.memory, before.memory);
        assert_eq!(engine.framebuffer, before.framebuffer);
        assert_eq!(engine.registers, before.registers);
        assert_eq!(engine.stack, before.stack);
        assert_eq!(engine.stack_pointer, before.stack_pointer);
        assert_eq!(engine.index_register, before.index_register);
        assert_eq!(engine.delay_timer, before.delay_timer);
        assert_eq!(engine.sound_timer, before.sound_timer);
    }
}

#[test]
fn test_draw_twice_toggles_back() {
    let mut engine = machine_with(&[0xD0, 0x15, 0xD0, 0x15]);
    engine.registers[0] = 5;
    engine.registers[1] = 3;
    engine.index_register = 0x300;
    let sprite = [0xF0, 0x90, 0x90, 0x90, 0xF0];
    engine.memory[0x300..0x305].copy_from_slice(&sprite);

    assert_eq!(engine.tick(NO_KEYS), Ok(()));
    assert_eq!(engine.registers[0xF], 0, "first draw reports no collision");
    assert_eq!(engine.framebuffer[3 * 64 + 5], 1, "top-left sprite pixel lit");
    assert_eq!(engine.framebuffer[3 * 64 + 8], 1, "top-right sprite pixel lit");
    assert_eq!(engine.framebuffer[4 * 64 + 6], 0, "hole of the glyph stays dark");

    assert_eq!(engine.tick(NO_KEYS), Ok(()));
    assert_eq!(engine.registers[0xF], 1, "second draw collides everywhere");
    assert!(engine.framebuffer.iter().all(|&p| p == 0), "every pixel off again");
}

#[test]
fn test_draw_wraps_per_pixel() {
    let mut engine = machine_with(&[0xD0, 0x11]);
    engine.registers[0] = 62;
    engine.registers[1] = 31;
    engine.index_register = 0x300;
    engine.memory[0x300] = 0xFF;
    assert_eq!(engine.tick(NO_KEYS), Ok(()));
    assert_eq!(engine.framebuffer[31 * 64 + 62], 1);
    assert_eq!(engine.framebuffer[31 * 64 + 63], 1);
    assert_eq!(engine.framebuffer[31 * 64 + 0], 1, "wraps to the left edge");
    assert_eq!(engine.framebuffer[31 * 64 + 5], 1);
    assert_eq!(engine.framebuffer[31 * 64 + 6], 0);
}

#[test]
fn test_clear_screen() {
    let mut engine = machine_with(&[0x00, 0xE0]);
    engine.framebuffer[100] = 1;
    engine.framebuffer[2047] = 1;
    assert_eq!(engine.tick(NO_KEYS), Ok(()));
    assert!(engine.framebuffer.iter().all(|&p| p == 0));
    assert_eq!(engine.program_counter, 0x202);
}

#[test]
fn test_wait_key_blocks_then_reads_lowest() {
    let mut engine = machine_with(&[0xF5, 0x0A]);
    for _ in 0..3 {
        assert_eq!(engine.tick(NO_KEYS), Ok(()));
        assert_eq!(engine.program_counter, 0x200, "blocked wait-key holds the pc");
    }
    let mut keys = NO_KEYS;
    keys[3] = true;
    keys[9] = true;
    assert_eq!(engine.tick(keys), Ok(()));
    assert_eq!(engine.registers[5], 3, "lowest pressed key index is stored");
    assert_eq!(engine.program_counter, 0x202);
}

#[test]
fn test_skip_instructions() {
    let mut engine = machine_with(&[0x30, 0x07]);
    engine.registers[0] = 7;
    assert_eq!(engine.tick(NO_KEYS), Ok(()));
    assert_eq!(engine.program_counter, 0x204);

    let mut engine = machine_with(&[0x30, 0x07]);
    engine.registers[0] = 6;
    assert_eq!(engine.tick(NO_KEYS), Ok(()));
    assert_eq!(engine.program_counter, 0x202);

    let mut engine = machine_with(&[0x40, 0x07]);
    engine.registers[0] = 6;
    assert_eq!(engine.tick(NO_KEYS), Ok(()));
    assert_eq!(engine.program_counter, 0x204);

    let mut engine = machine_with(&[0x50, 0x10]);
    engine.registers[0] = 9;
    engine.registers[1] = 9;
    assert_eq!(engine.tick(NO_KEYS), Ok(()));
    assert_eq!(engine.program_counter, 0x204);

    let mut engine = machine_with(&[0x90, 0x10]);
    engine.registers[0] = 9;
    engine.registers[1] = 8;
    assert_eq!(engine.tick(NO_KEYS), Ok(()));
    assert_eq!(engine.program_counter, 0x204);
}

#[test]
fn test_skip_on_key_state() {
    let mut keys = NO_KEYS;
    keys[2] = true;

    let mut engine = machine_with(&[0xE0, 0x9E]);
    engine.registers[0] = 2;
    assert_eq!(engine.tick(keys), Ok(()));
    assert_eq!(engine.program_counter, 0x204);

    let mut engine = machine_with(&[0xE0, 0x9E]);
    engine.registers[0] = 2;
    assert_eq!(engine.tick(NO_KEYS), Ok(()));
    assert_eq!(engine.program_counter, 0x202);

    let mut engine = machine_with(&[0xE0, 0xA1]);
    engine.registers[0] = 2;
    assert_eq!(engine.tick(keys), Ok(()));
    assert_eq!(engine.program_counter, 0x202);

    let mut engine = machine_with(&[0xE0, 0xA1]);
    engine.registers[0] = 20;
    assert_eq!(engine.tick(keys), Err(EngineError::AddressOutOfRange));
    assert_eq!(engine.program_counter, 0x200);
}

#[test]
fn test_unrecognized_instruction_leaves_state() {
    let mut engine = machine_with(&[0x50, 0x01]);
    engine.registers[4] = 0x99;
    let before = engine;
    assert_eq!(engine.tick(NO_KEYS), Err(EngineError::UnknownInstructionType));
    assert_eq!(engine.program_counter, before.program_counter);
    assert_eq!(engine.registers, before.registers);
    assert_eq!(engine.memory, before.memory);
    assert_eq!(engine.delay_timer, before.delay_timer);
}

#[test]
fn test_stack_underflow() {
    let mut engine = machine_with(&[0x00, 0xEE]);
    assert_eq!(engine.tick(NO_KEYS), Err(EngineError::StackUnderflow));
    assert_eq!(engine.program_counter, 0x200);
}

#[test]
fn test_stack_overflow() {
    let mut engine = machine_with(&[0x22, 0x00]);
    engine.stack_pointer = 16;
    assert_eq!(engine.tick(NO_KEYS), Err(EngineError::StackOverflow));
    assert_eq!(engine.stack_pointer, 16);
}

#[test]
fn test_nested_calls_to_capacity() {
    // Sixteen calls in a row, each to the next word, fill the stack; the
    // seventeenth faults.
    let mut program = Vec::new();
    for depth in 0..17u16 {
        let target = 0x202 + 2 * depth;
        program.push(0x22 | (target >> 8) as u8);
        program.push((target & 0xFF) as u8);
    }
    let mut engine = machine_with(&program);
    for _ in 0..16 {
        assert_eq!(engine.tick(NO_KEYS), Ok(()));
    }
    assert_eq!(engine.stack_pointer, 16);
    assert_eq!(engine.tick(NO_KEYS), Err(EngineError::StackOverflow));
}

#[test]
fn test_bcd_digits() {
    let mut engine = machine_with(&[0xF7, 0x33]);
    engine.registers[7] = 234;
    engine.index_register = 0x300;
    assert_eq!(engine.tick(NO_KEYS), Ok(()));
    assert_eq!(&engine.memory[0x300..0x303], &[2, 3, 4]);
}

#[test]
fn test_bcd_out_of_range() {
    let mut engine = machine_with(&[0xF7, 0x33]);
    engine.index_register = 4094;
    assert_eq!(engine.tick(NO_KEYS), Err(EngineError::AddressOutOfRange));
}

#[test]
fn test_draw_out_of_range() {
    let mut engine = machine_with(&[0xD0, 0x15]);
    engine.index_register = 4092;
    assert_eq!(engine.tick(NO_KEYS), Err(EngineError::AddressOutOfRange));
    assert!(engine.framebuffer.iter().all(|&p| p == 0));
}

#[test]
fn test_store_and_load_registers() {
    let mut engine = machine_with(&[0xF2, 0x55]);
    engine.registers[0] = 1;
    engine.registers[1] = 2;
    engine.registers[2] = 3;
    engine.registers[3] = 4;
    engine.index_register = 0x400;
    assert_eq!(engine.tick(NO_KEYS), Ok(()));
    assert_eq!(&engine.memory[0x400..0x404], &[1, 2, 3, 0]);

    let mut engine = machine_with(&[0xF2, 0x65]);
    engine.memory[0x400..0x404].copy_from_slice(&[9, 8, 7, 6]);
    engine.index_register = 0x400;
    engine.registers[3] = 0x55;
    assert_eq!(engine.tick(NO_KEYS), Ok(()));
    assert_eq!(&engine.registers[0..4], &[9, 8, 7, 0x55]);
}

#[test]
fn test_store_registers_out_of_range() {
    let mut engine = machine_with(&[0xF2, 0x55]);
    engine.index_register = 4094;
    assert_eq!(engine.tick(NO_KEYS), Err(EngineError::AddressOutOfRange));
}

#[test]
fn test_font_char_points_into_font() {
    let mut engine = machine_with(&[0xF2, 0x29]);
    engine.registers[2] = 0xA;
    assert_eq!(engine.tick(NO_KEYS), Ok(()));
    assert_eq!(engine.index_register, 50);
}

#[test]
fn test_index_register_ops() {
    let mut engine = machine_with(&[0xA1, 0x23, 0xF0, 0x1E]);
    engine.registers[0] = 0x10;
    assert_eq!(engine.tick(NO_KEYS), Ok(()));
    assert_eq!(engine.index_register, 0x123);
    assert_eq!(engine.tick(NO_KEYS), Ok(()));
    assert_eq!(engine.index_register, 0x133);
}

#[test]
fn test_jump_with_offset() {
    let mut engine = machine_with(&[0xB2, 0x08]);
    engine.registers[0] = 4;
    assert_eq!(engine.tick(NO_KEYS), Ok(()));
    assert_eq!(engine.program_counter, 0x20C);
}

#[test]
fn test_random_is_masked() {
    for _ in 0..8 {
        let mut engine = machine_with(&[0xC0, 0x0F]);
        assert_eq!(engine.tick(NO_KEYS), Ok(()));
        assert!(engine.registers[0] <= 0x0F);
    }
    let mut engine = machine_with(&[0xC0, 0x00]);
    assert_eq!(engine.tick(NO_KEYS), Ok(()));
    assert_eq!(engine.registers[0], 0);
}

#[test]
fn test_timers_decay_and_saturate() {
    let mut engine = machine_with(&[0x60, 0x00, 0x60, 0x00, 0x60, 0x00]);
    engine.delay_timer = 2;
    engine.sound_timer = 0;
    assert_eq!(engine.tick(NO_KEYS), Ok(()));
    assert_eq!(engine.delay_timer, 1);
    assert_eq!(engine.sound_timer, 0);
    assert_eq!(engine.tick(NO_KEYS), Ok(()));
    assert_eq!(engine.delay_timer, 0);
    assert_eq!(engine.tick(NO_KEYS), Ok(()));
    assert_eq!(engine.delay_timer, 0, "timers saturate at zero");
}

#[test]
fn test_timer_instructions() {
    let mut engine = machine_with(&[0xF0, 0x15, 0xF1, 0x07, 0xF2, 0x18]);
    engine.registers[0] = 9;
    engine.registers[2] = 5;
    assert_eq!(engine.tick(NO_KEYS), Ok(()));
    assert_eq!(engine.delay_timer, 8, "set to 9, then one decay step");
    assert_eq!(engine.tick(NO_KEYS), Ok(()));
    assert_eq!(engine.registers[1], 8, "reads the pre-decay delay value");
    assert_eq!(engine.delay_timer, 7);
    assert_eq!(engine.tick(NO_KEYS), Ok(()));
    assert_eq!(engine.sound_timer, 4, "set to 5, then one decay step");
}

#[test]
fn test_sys_is_ignored() {
    let mut engine = machine_with(&[0x03, 0x45]);
    let before = engine;
    assert_eq!(engine.tick(NO_KEYS), Ok(()));
    assert_eq!(engine.program_counter, 0x202);
    assert_eq!(engine.registers, before.registers);
    assert_eq!(engine.memory, before.memory);
}

#[test]
fn test_copy_register() {
    let mut engine = machine_with(&[0x8A, 0xB0]);
    engine.registers[0xB] = 0x77;
    assert_eq!(engine.tick(NO_KEYS), Ok(()));
    assert_eq!(engine.registers[0xA], 0x77);
}

#[test]
fn test_fetch_at_memory_edge_faults() {
    let mut engine = Engine::new().unwrap();
    engine.program_counter = 4095;
    assert_eq!(engine.tick(NO_KEYS), Err(EngineError::AddressOutOfRange));
    assert_eq!(engine.program_counter, 4095);
}
