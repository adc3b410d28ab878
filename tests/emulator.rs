use chip8::emulator::{Emulator, LoadError};
use chip8::instruction::{Fault, Instruction};
use chip8::machine::{EmulatorState, DISPLAY_HEIGHT, DISPLAY_SIZE, DISPLAY_WIDTH, MAX_PROGRAM_SIZE};

fn set(emu: &mut Emulator, x: usize, byte: u8) {
    emu.execute(Instruction::Load { x, byte }).unwrap();
}

fn lit_pixels(emu: &Emulator) -> usize {
    emu.get_buffer().iter().filter(|p| **p).count()
}

#[test]
fn new_machine_is_cleared() {
    let emu = Emulator::new();
    assert_eq!(emu.pc(), 0x200);
    assert_eq!(emu.sp(), 0);
    assert_eq!(emu.index(), 0);
    assert_eq!(emu.state(), EmulatorState::Running);
    for x in 0..16 {
        assert_eq!(emu.register(x), 0);
    }
    assert_eq!(emu.get_buffer().len(), DISPLAY_SIZE);
    assert_eq!(DISPLAY_WIDTH * DISPLAY_HEIGHT, DISPLAY_SIZE);
    assert_eq!(lit_pixels(&emu), 0);
}

#[test]
fn clear_then_jump_loops_forever() {
    let mut emu = Emulator::new();
    emu.load(&[0x00, 0xE0, 0x12, 0x00]).unwrap();
    assert_eq!(emu.cycle(), Ok(()));
    assert!(emu.get_buffer().iter().all(|p| !*p));
    assert_eq!(emu.pc(), 0x202);
    assert_eq!(emu.cycle(), Ok(()));
    assert_eq!(emu.pc(), 0x200);
}

#[test]
fn add_register_sets_carry() {
    let mut emu = Emulator::new();
    set(&mut emu, 0, 0xFF);
    set(&mut emu, 1, 0x01);
    emu.execute(Instruction::AddRegister { x: 0, y: 1 }).unwrap();
    assert_eq!(emu.register(0), 0x00);
    assert_eq!(emu.register(0xF), 1);
}

#[test]
fn add_register_without_carry_clears_flag() {
    let mut emu = Emulator::new();
    set(&mut emu, 0xF, 1);
    set(&mut emu, 2, 0x10);
    set(&mut emu, 3, 0x20);
    emu.execute(Instruction::AddRegister { x: 2, y: 3 }).unwrap();
    assert_eq!(emu.register(2), 0x30);
    assert_eq!(emu.register(0xF), 0);
}

#[test]
fn subtract_register_borrows() {
    let mut emu = Emulator::new();
    set(&mut emu, 0, 0x05);
    set(&mut emu, 1, 0x0A);
    emu.execute(Instruction::SubtractRegister { x: 0, y: 1 }).unwrap();
    assert_eq!(emu.register(0), 0xFB);
    assert_eq!(emu.register(0xF), 0);
}

#[test]
fn subtract_register_equal_operands_no_borrow() {
    let mut emu = Emulator::new();
    set(&mut emu, 4, 0x33);
    set(&mut emu, 5, 0x33);
    emu.execute(Instruction::SubtractRegister { x: 4, y: 5 }).unwrap();
    assert_eq!(emu.register(4), 0);
    assert_eq!(emu.register(0xF), 1);
}

#[test]
fn subtract_reverse_register_flags() {
    let mut emu = Emulator::new();
    set(&mut emu, 0, 0x05);
    set(&mut emu, 1, 0x0A);
    emu.execute(Instruction::SubtractReverseRegister { x: 0, y: 1 }).unwrap();
    assert_eq!(emu.register(0), 0x05);
    assert_eq!(emu.register(0xF), 1);
    set(&mut emu, 0, 0x0B);
    emu.execute(Instruction::SubtractReverseRegister { x: 0, y: 1 }).unwrap();
    assert_eq!(emu.register(0), 0xFF);
    assert_eq!(emu.register(0xF), 0);
}

#[test]
fn shifts_capture_bit_before_shifting() {
    let mut emu = Emulator::new();
    set(&mut emu, 2, 0b1000_0011);
    emu.execute(Instruction::ShiftRight { x: 2 }).unwrap();
    assert_eq!(emu.register(2), 0b0100_0001);
    assert_eq!(emu.register(0xF), 1);
    emu.execute(Instruction::ShiftLeft { x: 2 }).unwrap();
    assert_eq!(emu.register(2), 0b1000_0010);
    assert_eq!(emu.register(0xF), 0);
    emu.execute(Instruction::ShiftLeft { x: 2 }).unwrap();
    assert_eq!(emu.register(2), 0b0000_0100);
    assert_eq!(emu.register(0xF), 1);
}

#[test]
fn flag_overwrites_result_in_vf() {
    let mut emu = Emulator::new();
    set(&mut emu, 0xF, 0xFF);
    set(&mut emu, 1, 0x02);
    emu.execute(Instruction::AddRegister { x: 0xF, y: 1 }).unwrap();
    assert_eq!(emu.register(0xF), 1);
    set(&mut emu, 0xF, 0x04);
    emu.execute(Instruction::ShiftRight { x: 0xF }).unwrap();
    assert_eq!(emu.register(0xF), 0);
}

#[test]
fn add_byte_wraps_without_flag() {
    let mut emu = Emulator::new();
    set(&mut emu, 3, 0xF0);
    emu.execute(Instruction::Add { x: 3, byte: 0x20 }).unwrap();
    assert_eq!(emu.register(3), 0x10);
    assert_eq!(emu.register(0xF), 0);
}

#[test]
fn bitwise_operations() {
    let mut emu = Emulator::new();
    set(&mut emu, 0, 0b1100);
    set(&mut emu, 1, 0b1010);
    emu.execute(Instruction::OrRegister { x: 0, y: 1 }).unwrap();
    assert_eq!(emu.register(0), 0b1110);
    emu.execute(Instruction::AndRegister { x: 0, y: 1 }).unwrap();
    assert_eq!(emu.register(0), 0b1010);
    emu.execute(Instruction::XorRegister { x: 0, y: 1 }).unwrap();
    assert_eq!(emu.register(0), 0);
    emu.execute(Instruction::LoadRegister { x: 2, y: 1 }).unwrap();
    assert_eq!(emu.register(2), 0b1010);
}

#[test]
fn jump_call_and_return_move_pc() {
    let mut emu = Emulator::new();
    emu.execute(Instruction::Jump { address: 0x300 }).unwrap();
    assert_eq!(emu.pc(), 0x300);
    emu.execute(Instruction::Call { address: 0x400 }).unwrap();
    assert_eq!(emu.pc(), 0x400);
    assert_eq!(emu.sp(), 1);
    emu.execute(Instruction::Return).unwrap();
    assert_eq!(emu.pc(), 0x300);
    assert_eq!(emu.sp(), 0);
    set(&mut emu, 0, 0x10);
    emu.execute(Instruction::JumpOffset { address: 0x250 }).unwrap();
    assert_eq!(emu.pc(), 0x260);
}

#[test]
fn call_fails_on_full_stack() {
    let mut emu = Emulator::new();
    for _ in 0..16 {
        emu.execute(Instruction::Call { address: 0x200 }).unwrap();
    }
    assert_eq!(emu.sp(), 16);
    assert_eq!(emu.execute(Instruction::Call { address: 0x200 }), Err(Fault::StackOverflow));
    assert_eq!(emu.sp(), 16);
}

#[test]
fn return_fails_on_empty_stack() {
    let mut emu = Emulator::new();
    assert_eq!(emu.execute(Instruction::Return), Err(Fault::StackUnderflow));
    assert_eq!(emu.pc(), 0x200);
}

#[test]
fn skips_move_pc_by_two() {
    let mut emu = Emulator::new();
    set(&mut emu, 1, 7);
    emu.execute(Instruction::SkipEqual { x: 1, byte: 7 }).unwrap();
    assert_eq!(emu.pc(), 0x202);
    emu.execute(Instruction::SkipNotEqual { x: 1, byte: 7 }).unwrap();
    assert_eq!(emu.pc(), 0x202);
    emu.execute(Instruction::SkipEqualRegister { x: 1, y: 2 }).unwrap();
    assert_eq!(emu.pc(), 0x202);
    emu.execute(Instruction::SkipNotEqualRegister { x: 1, y: 2 }).unwrap();
    assert_eq!(emu.pc(), 0x204);
    assert_eq!(emu.register(1), 7);
}

#[test]
fn key_skips_follow_keypad() {
    let mut emu = Emulator::new();
    set(&mut emu, 0, 0xA);
    emu.execute(Instruction::SkipKeyPressed { x: 0 }).unwrap();
    assert_eq!(emu.pc(), 0x200);
    emu.key_down(0xA);
    emu.execute(Instruction::SkipKeyPressed { x: 0 }).unwrap();
    assert_eq!(emu.pc(), 0x202);
    emu.key_up(0xA);
    emu.execute(Instruction::SkipKeyNotPressed { x: 0 }).unwrap();
    assert_eq!(emu.pc(), 0x204);
}

#[test]
fn key_skip_reads_low_four_bits_of_key() {
    let mut emu = Emulator::new();
    set(&mut emu, 0, 0x1A);
    emu.key_down(0xA);
    assert_eq!(emu.execute(Instruction::SkipKeyPressed { x: 0 }), Ok(()));
    assert_eq!(emu.pc(), 0x202);
    assert_eq!(emu.execute(Instruction::SkipKeyNotPressed { x: 0 }), Ok(()));
    assert_eq!(emu.pc(), 0x202);
}

#[test]
fn draw_twice_restores_display() {
    let mut emu = Emulator::new();
    emu.load(&[]).unwrap();
    set(&mut emu, 0, 10);
    set(&mut emu, 1, 5);
    emu.execute(Instruction::LoadIndex { address: 0 }).unwrap();
    emu.execute(Instruction::Draw { x: 0, y: 1, nibble: 5 }).unwrap();
    let first: Vec<bool> = emu.get_buffer().to_vec();
    assert_eq!(lit_pixels(&emu), 14);
    assert!(first[5 * DISPLAY_WIDTH + 10]);
    assert_eq!(emu.register(0xF), 0);
    emu.execute(Instruction::Draw { x: 0, y: 1, nibble: 5 }).unwrap();
    assert_eq!(lit_pixels(&emu), 0);
    assert_eq!(emu.register(0xF), 1);
}

#[test]
fn draw_wraps_each_pixel() {
    let mut emu = Emulator::new();
    emu.load(&[0xFF, 0xFF]).unwrap();
    set(&mut emu, 0, 60);
    set(&mut emu, 1, 31);
    emu.execute(Instruction::LoadIndex { address: 0x200 }).unwrap();
    emu.execute(Instruction::Draw { x: 0, y: 1, nibble: 2 }).unwrap();
    let buffer = emu.get_buffer();
    assert_eq!(lit_pixels(&emu), 16);
    for col in [60, 61, 62, 63, 0, 1, 2, 3] {
        assert!(buffer[31 * DISPLAY_WIDTH + col]);
        assert!(buffer[col]);
    }
    assert!(!buffer[4]);
}

#[test]
fn draw_flag_is_last_toggled_pixel() {
    let mut emu = Emulator::new();
    emu.load(&[0x80, 0xC0]).unwrap();
    emu.execute(Instruction::LoadIndex { address: 0x200 }).unwrap();
    emu.execute(Instruction::Draw { x: 0, y: 1, nibble: 1 }).unwrap();
    assert_eq!(emu.register(0xF), 0);
    emu.execute(Instruction::LoadIndex { address: 0x201 }).unwrap();
    emu.execute(Instruction::Draw { x: 0, y: 1, nibble: 1 }).unwrap();
    assert_eq!(emu.register(0xF), 0);
    assert!(!emu.get_buffer()[0]);
    assert!(emu.get_buffer()[1]);
}

#[test]
fn draw_reads_sprite_rows_across_end_of_memory() {
    let mut emu = Emulator::new();
    let mut program = vec![0u8; MAX_PROGRAM_SIZE];
    program[0] = 0xAF;
    program[1] = 0xFF;
    program[2] = 0xD0;
    program[3] = 0x02;
    program[MAX_PROGRAM_SIZE - 1] = 0xFF;
    emu.load(&program).unwrap();
    assert_eq!(emu.cycle(), Ok(()));
    assert_eq!(emu.index(), 0xFFF);
    assert_eq!(emu.cycle(), Ok(()));
    assert_eq!(emu.pc(), 0x204);
    assert_eq!(lit_pixels(&emu), 12);
    for col in 0..8 {
        assert!(emu.get_buffer()[col]);
    }
    for col in 0..4 {
        assert!(emu.get_buffer()[DISPLAY_WIDTH + col]);
    }
    assert!(!emu.get_buffer()[DISPLAY_WIDTH + 4]);
}

#[test]
fn clear_blanks_display() {
    let mut emu = Emulator::new();
    emu.load(&[]).unwrap();
    emu.execute(Instruction::Draw { x: 0, y: 0, nibble: 5 }).unwrap();
    assert!(lit_pixels(&emu) > 0);
    emu.execute(Instruction::Clear).unwrap();
    assert_eq!(lit_pixels(&emu), 0);
}

#[test]
fn wait_key_press_blocks_until_key() {
    let mut emu = Emulator::new();
    emu.load(&[0xF3, 0x0A, 0x00, 0xE0]).unwrap();
    set(&mut emu, 3, 0x42);
    emu.cycle().unwrap();
    assert_eq!(emu.state(), EmulatorState::WaitingKeyPress { x: 3 });
    assert_eq!(emu.pc(), 0x202);
    emu.cycle().unwrap();
    emu.cycle().unwrap();
    assert_eq!(emu.register(3), 0x42);
    assert_eq!(emu.pc(), 0x202);
    emu.key_down(0x9);
    emu.key_down(0x5);
    emu.cycle().unwrap();
    assert_eq!(emu.register(3), 0x5);
    assert_eq!(emu.state(), EmulatorState::Running);
    assert_eq!(emu.pc(), 0x202);
    emu.cycle().unwrap();
    assert_eq!(emu.pc(), 0x204);
}

#[test]
fn timers_saturate_at_zero() {
    let mut emu = Emulator::new();
    emu.timers_cycle();
    assert_eq!(emu.delay_timer(), 0);
    assert_eq!(emu.sound_timer(), 0);
    set(&mut emu, 0, 2);
    emu.execute(Instruction::SetDelay { x: 0 }).unwrap();
    emu.execute(Instruction::SetSound { x: 0 }).unwrap();
    emu.timers_cycle();
    assert_eq!(emu.delay_timer(), 1);
    emu.timers_cycle();
    emu.timers_cycle();
    assert_eq!(emu.delay_timer(), 0);
    assert_eq!(emu.sound_timer(), 0);
    emu.execute(Instruction::LoadDelay { x: 1 }).unwrap();
    assert_eq!(emu.register(1), 0);
}

#[test]
fn store_then_load_registers_round_trips() {
    let mut emu = Emulator::new();
    for x in 0..6 {
        set(&mut emu, x, (x as u8) * 11 + 1);
    }
    emu.execute(Instruction::LoadIndex { address: 0x300 }).unwrap();
    emu.execute(Instruction::StoreRegisters { x: 5 }).unwrap();
    assert_eq!(emu.memory_at(0x305), 56);
    for x in 0..6 {
        set(&mut emu, x, 0);
    }
    emu.execute(Instruction::LoadRegisters { x: 5 }).unwrap();
    for x in 0..6 {
        assert_eq!(emu.register(x), (x as u8) * 11 + 1);
    }
}

#[test]
fn register_blocks_wrap_at_end_of_memory() {
    let mut emu = Emulator::new();
    set(&mut emu, 0, 0x11);
    set(&mut emu, 1, 0x22);
    emu.execute(Instruction::LoadIndex { address: 0xFFF }).unwrap();
    assert_eq!(emu.execute(Instruction::StoreRegisters { x: 1 }), Ok(()));
    assert_eq!(emu.memory_at(0xFFF), 0x11);
    assert_eq!(emu.memory_at(0), 0x22);
    set(&mut emu, 0, 0);
    set(&mut emu, 1, 0);
    assert_eq!(emu.execute(Instruction::LoadRegisters { x: 1 }), Ok(()));
    assert_eq!(emu.register(0), 0x11);
    assert_eq!(emu.register(1), 0x22);
    set(&mut emu, 2, 254);
    assert_eq!(emu.execute(Instruction::LoadBCD { x: 2 }), Ok(()));
    assert_eq!(emu.memory_at(0xFFF), 2);
    assert_eq!(emu.memory_at(0), 5);
    assert_eq!(emu.memory_at(1), 4);
}

#[test]
fn bcd_writes_three_digits() {
    let mut emu = Emulator::new();
    set(&mut emu, 7, 254);
    emu.execute(Instruction::LoadIndex { address: 0x300 }).unwrap();
    emu.execute(Instruction::LoadBCD { x: 7 }).unwrap();
    assert_eq!(emu.memory_at(0x300), 2);
    assert_eq!(emu.memory_at(0x301), 5);
    assert_eq!(emu.memory_at(0x302), 4);
}

#[test]
fn index_operations() {
    let mut emu = Emulator::new();
    set(&mut emu, 0, 0xA);
    emu.execute(Instruction::LoadSprite { x: 0 }).unwrap();
    assert_eq!(emu.index(), 50);
    emu.execute(Instruction::AddIndex { x: 0 }).unwrap();
    assert_eq!(emu.index(), 60);
}

#[test]
fn random_is_masked_by_byte() {
    let mut emu = Emulator::new();
    for _ in 0..20 {
        emu.execute(Instruction::Random { x: 2, byte: 0x0F }).unwrap();
        assert_eq!(emu.register(2) & 0xF0, 0);
    }
    emu.execute(Instruction::Random { x: 2, byte: 0 }).unwrap();
    assert_eq!(emu.register(2), 0);
    emu.execute_with(Instruction::Random { x: 2, byte: 0x3C }, 0xAA).unwrap();
    assert_eq!(emu.register(2), 0x28);
}

#[test]
fn decode_splits_fields() {
    let emu = Emulator::new();
    assert_eq!(emu.decode(0xD123), Ok(Instruction::Draw { x: 1, y: 2, nibble: 3 }));
    assert_eq!(emu.decode(0x00E0), Ok(Instruction::Clear));
    assert_eq!(emu.decode(0x00EE), Ok(Instruction::Return));
    assert_eq!(emu.decode(0x0123), Ok(Instruction::System { address: 0x123 }));
    assert_eq!(emu.decode(0x2ABC), Ok(Instruction::Call { address: 0xABC }));
    assert_eq!(emu.decode(0x7A05), Ok(Instruction::Add { x: 0xA, byte: 0x05 }));
    assert_eq!(emu.decode(0x8AB6), Ok(Instruction::ShiftRight { x: 0xA }));
    assert_eq!(emu.decode(0x8ABE), Ok(Instruction::ShiftLeft { x: 0xA }));
    assert_eq!(emu.decode(0xBFFF), Ok(Instruction::JumpOffset { address: 0xFFF }));
    assert_eq!(emu.decode(0xE39E), Ok(Instruction::SkipKeyPressed { x: 3 }));
    assert_eq!(emu.decode(0xF065), Ok(Instruction::LoadRegisters { x: 0 }));
}

#[test]
fn decode_rejects_unknown_opcodes() {
    let emu = Emulator::new();
    for opcode in [0x8008u16, 0x800F, 0xE000, 0xE19F, 0xF000, 0xF1FF] {
        assert_eq!(emu.decode(opcode), Err(Fault::UnknownOpcode { opcode }));
    }
}

#[test]
fn cycle_reports_unknown_opcode_and_keeps_state() {
    let mut emu = Emulator::new();
    emu.load(&[0xFF, 0xFF]).unwrap();
    assert_eq!(emu.cycle(), Err(Fault::UnknownOpcode { opcode: 0xFFFF }));
    assert_eq!(emu.pc(), 0x200);
}

#[test]
fn fetch_wraps_at_end_of_memory() {
    let mut emu = Emulator::new();
    set(&mut emu, 0, 0x00);
    set(&mut emu, 1, 0xE0);
    emu.execute(Instruction::LoadIndex { address: 0xFFF }).unwrap();
    emu.execute(Instruction::StoreRegisters { x: 1 }).unwrap();
    emu.execute(Instruction::Jump { address: 0xFFF }).unwrap();
    assert_eq!(emu.cycle(), Ok(()));
    assert_eq!(emu.pc(), 0x1001);
}

#[test]
fn load_installs_font_and_program() {
    let mut emu = Emulator::new();
    emu.load(&[0x12, 0x34]).unwrap();
    assert_eq!(emu.memory_at(0), 0xF0);
    assert_eq!(emu.memory_at(5), 0x20);
    assert_eq!(emu.memory_at(79), 0x80);
    assert_eq!(emu.memory_at(80), 0);
    assert_eq!(emu.memory_at(0x200), 0x12);
    assert_eq!(emu.memory_at(0x201), 0x34);
    assert_eq!(emu.memory_at(0x202), 0);
}

#[test]
fn load_rejects_oversized_program() {
    let mut emu = Emulator::new();
    let too_big = vec![0xAAu8; MAX_PROGRAM_SIZE + 1];
    assert_eq!(emu.load(&too_big), Err(LoadError::ProgramTooLarge));
    assert_eq!(emu.memory_at(0), 0);
    let fits = vec![0xAAu8; MAX_PROGRAM_SIZE];
    assert_eq!(emu.load(&fits), Ok(()));
    assert_eq!(emu.memory_at(4095), 0xAA);
}
