use chip8::clock::ClockDriver;
use chip8::interp::{Chip8, Quirks, StepEvent};

fn boot(bytes: &[u8]) -> Chip8 {
    let mut vm = Chip8::new();
    let rom: Vec<u8> = bytes.to_vec();
    vm.load_rom(&rom).unwrap();
    vm
}

fn wrap_quirks() -> Quirks {
    Quirks {
        shift_uses_vy: false,
        draw_wraps: true,
        load_store_increments_index: false,
        invalid_opcode_fatal: false,
    }
}

#[test]
fn draw_sets_pixels_and_reports_redraw() {
    // Draw the font sprite for 0 (five rows starting at address 0) at (0,0).
    let mut vm = boot(&[0xA0, 0x00, 0xD0, 0x15]);
    vm.step().unwrap();
    assert_eq!(vm.step(), Ok(StepEvent::Redraw));
    // Top row of the glyph is 0xF0: pixels 0..4 set, 4..8 clear.
    assert!(vm.pixel(0, 0));
    assert!(vm.pixel(3, 0));
    assert!(!vm.pixel(4, 0));
    assert_eq!(vm.regs.v[15], 0);
}

#[test]
fn draw_same_sprite_twice_erases_and_collides() {
    // Two identical draws: second one collides and wipes the region.
    let mut vm = boot(&[0xA0, 0x00, 0xD0, 0x15, 0xD0, 0x15]);
    vm.step().unwrap();
    vm.step().unwrap();
    assert_eq!(vm.regs.v[15], 0);
    vm.step().unwrap();
    assert_eq!(vm.regs.v[15], 1);
    assert!(vm.read_display().iter().all(|p| !p));
}

#[test]
fn clear_screen_after_draw() {
    let mut vm = boot(&[0xA0, 0x00, 0xD0, 0x15, 0x00, 0xE0]);
    vm.step().unwrap();
    vm.step().unwrap();
    assert!(vm.read_display().iter().any(|p| *p));
    assert_eq!(vm.step(), Ok(StepEvent::Redraw));
    assert!(vm.read_display().iter().all(|p| !p));
}

#[test]
fn draw_clips_at_right_edge_by_default() {
    // One 0xFF row drawn at x=60: columns 60..63 set, nothing wraps to 0..3.
    let mut vm = boot(&[0x60, 0x3C, 0x61, 0x00, 0xA2, 0x0A, 0xD0, 0x11, 0x00, 0x00, 0xFF]);
    vm.step().unwrap();
    vm.step().unwrap();
    vm.step().unwrap();
    vm.step().unwrap();
    for px in 60..64usize {
        assert!(vm.pixel(px, 0));
    }
    for px in 0..4usize {
        assert!(!vm.pixel(px, 0));
    }
}

#[test]
fn draw_wraps_at_right_edge_with_quirk() {
    let mut vm = Chip8::with_quirks(wrap_quirks());
    let rom: Vec<u8> = vec![0x60, 0x3C, 0x61, 0x00, 0xA2, 0x0A, 0xD0, 0x11, 0x00, 0x00, 0xFF];
    vm.load_rom(&rom).unwrap();
    vm.step().unwrap();
    vm.step().unwrap();
    vm.step().unwrap();
    vm.step().unwrap();
    for px in 60..64usize {
        assert!(vm.pixel(px, 0));
    }
    for px in 0..4usize {
        assert!(vm.pixel(px, 0));
    }
}

#[test]
fn draw_coordinates_taken_modulo_screen() {
    // Start coordinates wrap even when overflow pixels clip: x=64 acts as 0.
    let mut vm = boot(&[0x60, 0x40, 0x61, 0x00, 0xA0, 0x00, 0xD0, 0x15]);
    vm.step().unwrap();
    vm.step().unwrap();
    vm.step().unwrap();
    vm.step().unwrap();
    assert!(vm.pixel(0, 0));
}

#[test]
fn clock_steps_at_configured_rate() {
    let mut clock = ClockDriver::new(700, 100);
    // 10 ms at 700 Hz: exactly 7 steps due, no remainder.
    let (steps, _) = clock.advance(10_000);
    assert_eq!(steps, 7);
    assert_eq!(clock.cpu_acc, 0);
    // 1.429 ms more: one step due, 300 rate-scaled micros carried.
    let (steps, _) = clock.advance(1_429);
    assert_eq!(steps, 1);
    assert_eq!(clock.cpu_acc, 300);
}

#[test]
fn clock_timer_ticks_at_sixty_hz() {
    let mut clock = ClockDriver::new(700, 100);
    // 16.667 ms: one 60Hz tick due, remainder 20 carried.
    let (_, ticks) = clock.advance(16_667);
    assert_eq!(ticks, 1);
    assert_eq!(clock.timer_acc, 20);
    // One full second, fed in two halves: exactly 60 ticks in total.
    let mut clock = ClockDriver::new(700, 100);
    let (_, a) = clock.advance(500_000);
    let (_, b) = clock.advance(500_000);
    assert_eq!(a + b, 60);
    assert_eq!(clock.timer_acc, 0);
}

#[test]
fn clock_caps_steps_after_long_pause() {
    let mut clock = ClockDriver::new(700, 100);
    // Ten seconds would owe 7000 steps; the cap drops the excess.
    let (steps, _) = clock.advance(10_000_000);
    assert_eq!(steps, 100);
    assert_eq!(clock.cpu_acc, 0);
}

#[test]
fn clock_accumulator_never_drifts() {
    // Feeding 1/60 s in uneven chunks yields the same tick count as one call.
    let mut a = ClockDriver::new(700, 100);
    let mut total_a: u64 = 0;
    for _ in 0..600 {
        let (_, t) = a.advance(1_666);
        total_a += t;
    }
    let mut b = ClockDriver::new(700, 100);
    let (_, total_b) = b.advance(999_600);
    assert_eq!(total_a, total_b);
}
