use chip8::interp::{Chip8, Fault, LoadError, Mode, Quirks, StepEvent};

fn boot(bytes: &[u8]) -> Chip8 {
    let mut vm = Chip8::new();
    let rom: Vec<u8> = bytes.to_vec();
    vm.load_rom(&rom).unwrap();
    vm
}

fn boot_with(bytes: &[u8], quirks: Quirks) -> Chip8 {
    let mut vm = Chip8::with_quirks(quirks);
    let rom: Vec<u8> = bytes.to_vec();
    vm.load_rom(&rom).unwrap();
    vm
}

#[test]
fn construct_word_big_endian() {
    assert_eq!(chip8::construct_u16(0x12, 0x34), 0x1234);
    assert_eq!(chip8::construct_u16(0x00, 0xE0), 0x00E0);
    assert_eq!(chip8::construct_u16(0xFF, 0xFF), 0xFFFF);
}

#[test]
fn set_imm_stores_exact_value() {
    let mut vm = boot(&[0x61, 0x2A]);
    assert_eq!(vm.step(), Ok(StepEvent::Executed));
    assert_eq!(vm.regs.v[1], 0x2A);
    assert_eq!(vm.regs.pc, 0x202);
}

#[test]
fn add_imm_wraps_without_flag() {
    // V[2] = 0xFF, then 7201: wraps to 0x00, flag register untouched.
    let mut vm = boot(&[0x62, 0xFF, 0x72, 0x01]);
    vm.step().unwrap();
    let flag_before = vm.regs.v[15];
    vm.step().unwrap();
    assert_eq!(vm.regs.v[2], 0x00);
    assert_eq!(vm.regs.v[15], flag_before);
}

#[test]
fn add_reg_carry_set_and_clear() {
    // V[3]=0xFF, V[4]=0x01 -> V[3]=0x00, V[F]=1.
    let mut vm = boot(&[0x63, 0xFF, 0x64, 0x01, 0x83, 0x44]);
    vm.step().unwrap();
    vm.step().unwrap();
    vm.step().unwrap();
    assert_eq!(vm.regs.v[3], 0x00);
    assert_eq!(vm.regs.v[15], 1);
    // V[3]=0x01, V[4]=0x01 -> V[3]=0x02, V[F]=0.
    let mut vm = boot(&[0x63, 0x01, 0x64, 0x01, 0x83, 0x44]);
    vm.step().unwrap();
    vm.step().unwrap();
    vm.step().unwrap();
    assert_eq!(vm.regs.v[3], 0x02);
    assert_eq!(vm.regs.v[15], 0);
}

#[test]
fn sub_reg_borrow_flags() {
    // 8XY5: V[5]=5, V[6]=3 -> V[5]=2, V[F]=1 (no borrow).
    let mut vm = boot(&[0x65, 0x05, 0x66, 0x03, 0x85, 0x65]);
    vm.step().unwrap();
    vm.step().unwrap();
    vm.step().unwrap();
    assert_eq!(vm.regs.v[5], 2);
    assert_eq!(vm.regs.v[15], 1);
    // V[5]=3, V[6]=5 -> wraps to 0xFE, V[F]=0 (borrow).
    let mut vm = boot(&[0x65, 0x03, 0x66, 0x05, 0x85, 0x65]);
    vm.step().unwrap();
    vm.step().unwrap();
    vm.step().unwrap();
    assert_eq!(vm.regs.v[5], 0xFE);
    assert_eq!(vm.regs.v[15], 0);
}

#[test]
fn subn_reg_reversed_operands() {
    // 8XY7: V[5]=3, V[6]=5 -> V[5]=V[6]-V[5]=2, V[F]=1.
    let mut vm = boot(&[0x65, 0x03, 0x66, 0x05, 0x85, 0x67]);
    vm.step().unwrap();
    vm.step().unwrap();
    vm.step().unwrap();
    assert_eq!(vm.regs.v[5], 2);
    assert_eq!(vm.regs.v[15], 1);
}

#[test]
fn bitwise_or_and_xor() {
    let mut vm = boot(&[
        0x60, 0xF0, 0x61, 0x0F, 0x80, 0x11, // OR  -> 0xFF
        0x62, 0xCC, 0x63, 0xAA, 0x82, 0x32, // AND -> 0x88
        0x64, 0xCC, 0x65, 0xAA, 0x84, 0x53, // XOR -> 0x66
    ]);
    for _ in 0..9 {
        vm.step().unwrap();
    }
    assert_eq!(vm.regs.v[0], 0xFF);
    assert_eq!(vm.regs.v[2], 0x88);
    assert_eq!(vm.regs.v[4], 0x66);
}

#[test]
fn shift_right_and_left_default_quirk() {
    // Default: shifts read V[X]. 0x0F >> 1 = 0x07, bit out 1.
    let mut vm = boot(&[0x66, 0x0F, 0x86, 0x06]);
    vm.step().unwrap();
    vm.step().unwrap();
    assert_eq!(vm.regs.v[6], 0x07);
    assert_eq!(vm.regs.v[15], 1);
    // 0x8F << 1 = 0x1E, bit out 1.
    let mut vm = boot(&[0x66, 0x8F, 0x86, 0x0E]);
    vm.step().unwrap();
    vm.step().unwrap();
    assert_eq!(vm.regs.v[6], 0x1E);
    assert_eq!(vm.regs.v[15], 1);
}

#[test]
fn shift_uses_vy_quirk() {
    let q = Quirks {
        shift_uses_vy: true,
        draw_wraps: false,
        load_store_increments_index: false,
        invalid_opcode_fatal: false,
    };
    let mut vm = boot_with(&[0x66, 0xFF, 0x67, 0x04, 0x86, 0x76], q);
    vm.step().unwrap();
    vm.step().unwrap();
    vm.step().unwrap();
    // V[6] = V[7] >> 1 = 2, bit out 0.
    assert_eq!(vm.regs.v[6], 0x02);
    assert_eq!(vm.regs.v[15], 0);
}

#[test]
fn skip_instructions() {
    // 3XNN taken: pc jumps over one instruction.
    let mut vm = boot(&[0x65, 0x05, 0x35, 0x05]);
    vm.step().unwrap();
    vm.step().unwrap();
    assert_eq!(vm.regs.pc, 0x206);
    // 4XNN not taken when equal.
    let mut vm = boot(&[0x65, 0x05, 0x45, 0x05]);
    vm.step().unwrap();
    vm.step().unwrap();
    assert_eq!(vm.regs.pc, 0x204);
    // 5XY0 taken, 9XY0 not taken on equal registers.
    let mut vm = boot(&[0x65, 0x07, 0x66, 0x07, 0x55, 0x60]);
    vm.step().unwrap();
    vm.step().unwrap();
    vm.step().unwrap();
    assert_eq!(vm.regs.pc, 0x208);
    let mut vm = boot(&[0x65, 0x07, 0x66, 0x07, 0x95, 0x60]);
    vm.step().unwrap();
    vm.step().unwrap();
    vm.step().unwrap();
    assert_eq!(vm.regs.pc, 0x206);
}

#[test]
fn jump_and_jump_v0() {
    let mut vm = boot(&[0x13, 0x00]);
    vm.step().unwrap();
    assert_eq!(vm.regs.pc, 0x300);
    let mut vm = boot(&[0x60, 0x10, 0xB3, 0x00]);
    vm.step().unwrap();
    vm.step().unwrap();
    assert_eq!(vm.regs.pc, 0x310);
}

#[test]
fn call_then_return_round_trips() {
    // 2NNN then 00EE: pc after the return is the address right after the call.
    let mut vm = boot(&[0x22, 0x04, 0x60, 0x00, 0x00, 0xEE]);
    assert_eq!(vm.step(), Ok(StepEvent::Executed));
    assert_eq!(vm.regs.pc, 0x204);
    assert_eq!(vm.stack.slots.len(), 1);
    assert_eq!(vm.step(), Ok(StepEvent::Executed));
    assert_eq!(vm.regs.pc, 0x202);
    assert_eq!(vm.stack.slots.len(), 0);
}

#[test]
fn stack_overflow_on_seventeenth_call() {
    // 2200 calls address 0x200 over and over: 16 nested calls succeed.
    let mut vm = boot(&[0x22, 0x00]);
    for _ in 0..16 {
        assert_eq!(vm.step(), Ok(StepEvent::Executed));
    }
    assert_eq!(vm.stack.depth(), 16);
    let fault = vm.step();
    assert_eq!(fault, Err(Fault::StackOverflow));
    assert_eq!(vm.mode, Mode::Halted(Fault::StackOverflow));
    // The fault is stable: stepping again returns it without executing.
    assert_eq!(vm.step(), Err(Fault::StackOverflow));
    assert_eq!(vm.stack.depth(), 16);
}

#[test]
fn stack_underflow_on_return_with_empty_stack() {
    let mut vm = boot(&[0x00, 0xEE]);
    assert_eq!(vm.step(), Err(Fault::StackUnderflow));
    assert_eq!(vm.mode, Mode::Halted(Fault::StackUnderflow));
    assert_eq!(vm.step(), Err(Fault::StackUnderflow));
}

#[test]
fn invalid_opcode_ignored_by_default() {
    // 0x0123 matches no defined pattern; default configuration skips it.
    let mut vm = boot(&[0x01, 0x23, 0x61, 0x07]);
    assert_eq!(vm.step(), Ok(StepEvent::Executed));
    assert_eq!(vm.step(), Ok(StepEvent::Executed));
    assert_eq!(vm.regs.v[1], 7);
}

#[test]
fn invalid_opcode_fatal_quirk() {
    let q = Quirks {
        shift_uses_vy: false,
        draw_wraps: false,
        load_store_increments_index: false,
        invalid_opcode_fatal: true,
    };
    let mut vm = boot_with(&[0x01, 0x23], q);
    assert_eq!(vm.step(), Err(Fault::InvalidOpcode(0x0123)));
    assert_eq!(vm.mode, Mode::Halted(Fault::InvalidOpcode(0x0123)));
    assert_eq!(vm.step(), Err(Fault::InvalidOpcode(0x0123)));
}

#[test]
fn load_rom_too_large_rejected() {
    let mut vm = Chip8::new();
    let too_big: Vec<u8> = vec![0u8; 3585];
    assert_eq!(vm.load_rom(&too_big), Err(LoadError::RomTooLarge));
    assert_eq!(vm.regs.pc, 0x200);
    let just_fits: Vec<u8> = vec![0u8; 3584];
    assert_eq!(vm.load_rom(&just_fits), Ok(()));
    assert_eq!(vm.mem.bytes[0x200 + 3583], 0);
}

#[test]
fn load_rom_preserves_font_region() {
    let mut vm = Chip8::new();
    let rom: Vec<u8> = vec![0xAB; 16];
    vm.load_rom(&rom).unwrap();
    // Font sprite for digit 0 still starts at address 0.
    assert_eq!(vm.mem.bytes[0], 0xF0);
    assert_eq!(vm.mem.bytes[4], 0xF0);
    assert_eq!(vm.mem.bytes[0x200], 0xAB);
    assert_eq!(vm.mem.bytes[0x20F], 0xAB);
    assert_eq!(vm.mem.bytes[0x210], 0);
}

#[test]
fn font_addr_points_at_glyph() {
    // FX29 with V[0]=7: I = 5 * 7 = 35.
    let mut vm = boot(&[0x60, 0x07, 0xF0, 0x29]);
    vm.step().unwrap();
    vm.step().unwrap();
    assert_eq!(vm.regs.i, 35);
}

#[test]
fn bcd_digits_stored() {
    // V[A] = 156 -> memory at I holds 1, 5, 6.
    let mut vm = boot(&[0x6A, 0x9C, 0xA3, 0x00, 0xFA, 0x33]);
    vm.step().unwrap();
    vm.step().unwrap();
    vm.step().unwrap();
    assert_eq!(vm.mem.bytes[0x300], 1);
    assert_eq!(vm.mem.bytes[0x301], 5);
    assert_eq!(vm.mem.bytes[0x302], 6);
}

#[test]
fn store_and_load_registers() {
    let mut vm = boot(&[0x60, 0x11, 0x61, 0x22, 0xA3, 0x00, 0xF1, 0x55]);
    for _ in 0..4 {
        vm.step().unwrap();
    }
    assert_eq!(vm.mem.bytes[0x300], 0x11);
    assert_eq!(vm.mem.bytes[0x301], 0x22);
    // Default quirk: I unchanged.
    assert_eq!(vm.regs.i, 0x300);
    let mut vm2 = boot(&[0xA3, 0x00, 0xF1, 0x65]);
    vm2.mem.bytes[0x300] = 0x33;
    vm2.mem.bytes[0x301] = 0x44;
    vm2.step().unwrap();
    vm2.step().unwrap();
    assert_eq!(vm2.regs.v[0], 0x33);
    assert_eq!(vm2.regs.v[1], 0x44);
}

#[test]
fn store_regs_increment_quirk() {
    let q = Quirks {
        shift_uses_vy: false,
        draw_wraps: false,
        load_store_increments_index: true,
        invalid_opcode_fatal: false,
    };
    let mut vm = boot_with(&[0xA3, 0x00, 0xF2, 0x55], q);
    vm.step().unwrap();
    vm.step().unwrap();
    assert_eq!(vm.regs.i, 0x303);
}

#[test]
fn index_register_ops() {
    // ANNN then FX1E.
    let mut vm = boot(&[0xA1, 0x23, 0x60, 0x10, 0xF0, 0x1E]);
    vm.step().unwrap();
    assert_eq!(vm.regs.i, 0x123);
    vm.step().unwrap();
    vm.step().unwrap();
    assert_eq!(vm.regs.i, 0x133);
}

#[test]
fn get_and_set_delay_timer() {
    let mut vm = boot(&[0x6A, 0x3C, 0xFA, 0x15, 0xF1, 0x07]);
    vm.step().unwrap();
    vm.step().unwrap();
    assert_eq!(vm.regs.delay, 0x3C);
    vm.step().unwrap();
    assert_eq!(vm.regs.v[1], 0x3C);
}

#[test]
fn sound_timer_and_sound_active() {
    let mut vm = boot(&[0x6A, 0x05, 0xFA, 0x18]);
    vm.step().unwrap();
    vm.step().unwrap();
    assert!(vm.sound_active());
    for _ in 0..5 {
        vm.tick_timers();
    }
    assert!(!vm.sound_active());
}

#[test]
fn timers_independent_of_steps() {
    // 1200 jumps to itself forever; 100 steps leave both timers alone.
    let mut vm = boot(&[0x12, 0x00]);
    vm.regs.delay = 60;
    vm.regs.sound = 42;
    for _ in 0..100 {
        vm.step().unwrap();
    }
    assert_eq!(vm.regs.delay, 60);
    assert_eq!(vm.regs.sound, 42);
    // 60 ticks take a timer of 60 to zero, and no further.
    for _ in 0..60 {
        vm.tick_timers();
    }
    assert_eq!(vm.regs.delay, 0);
    vm.tick_timers();
    assert_eq!(vm.regs.delay, 0);
}

#[test]
fn rand_is_masked_and_deterministic() {
    let mut a = boot(&[0xC0, 0x0F, 0xC1, 0xFF]);
    a.seed_rng(0x1234);
    a.step().unwrap();
    a.step().unwrap();
    assert_eq!(a.regs.v[0] & 0xF0, 0);
    let mut b = boot(&[0xC0, 0x0F, 0xC1, 0xFF]);
    b.seed_rng(0x1234);
    b.step().unwrap();
    b.step().unwrap();
    assert_eq!(a.regs.v[0], b.regs.v[0]);
    assert_eq!(a.regs.v[1], b.regs.v[1]);
}

#[test]
fn key_wait_blocks_until_press() {
    let mut vm = boot(&[0xF5, 0x0A, 0x61, 0x01]);
    assert_eq!(vm.step(), Ok(StepEvent::Executed));
    assert_eq!(vm.mode, Mode::WaitingForKey(5));
    // No key pressed: Idle, pc stays put.
    for _ in 0..3 {
        assert_eq!(vm.step(), Ok(StepEvent::Idle));
        assert_eq!(vm.regs.pc, 0x202);
    }
    vm.set_key(7, true);
    assert_eq!(vm.step(), Ok(StepEvent::Executed));
    assert_eq!(vm.regs.v[5], 7);
    assert_eq!(vm.mode, Mode::Running);
    assert_eq!(vm.regs.pc, 0x202);
    // The qualifying press was consumed.
    assert!(!vm.input.keys[7]);
    // Normal advancement resumes.
    assert_eq!(vm.step(), Ok(StepEvent::Executed));
    assert_eq!(vm.regs.v[1], 1);
    assert_eq!(vm.regs.pc, 0x204);
}

#[test]
fn key_skip_instructions() {
    // EX9E skips when the key in V[X] is down.
    let mut vm = boot(&[0x60, 0x04, 0xE0, 0x9E]);
    vm.set_key(4, true);
    vm.step().unwrap();
    vm.step().unwrap();
    assert_eq!(vm.regs.pc, 0x206);
    // EXA1 skips when it is up.
    let mut vm = boot(&[0x60, 0x04, 0xE0, 0xA1]);
    vm.step().unwrap();
    vm.step().unwrap();
    assert_eq!(vm.regs.pc, 0x206);
}

#[test]
fn reset_restores_construction_state() {
    let mut vm = boot(&[0x61, 0x2A, 0xA3, 0x00]);
    vm.step().unwrap();
    vm.step().unwrap();
    vm.set_key(3, true);
    vm.reset();
    assert_eq!(vm.regs.pc, 0x200);
    assert_eq!(vm.regs.v[1], 0);
    assert_eq!(vm.regs.i, 0);
    assert_eq!(vm.mode, Mode::Running);
    assert!(!vm.input.keys[3]);
    assert_eq!(vm.mem.bytes[0x200], 0);
    assert_eq!(vm.mem.bytes[0], 0xF0);
    assert!(vm.read_display().iter().all(|p| !p));
}
