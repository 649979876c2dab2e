use chip8::delay::Delay;
use chip8::display::Display;
use chip8::keyboard::{Keyboard, KEY_QUIT, KEY_REDRAW};
use chip8::sound::Sound;
use chip8::vm::Chip8;

#[test]
fn delay_tick_before_threshold_is_noop() {
    // 16 ms is still fewer than one sixtieth of a second (16.67 ms).
    let mut d = Delay { count: 5, last_ms: 1000 };
    d.tick_at(1016);
    assert_eq!(d.count, 5);
    assert_eq!(d.last_ms, 1000);
}

#[test]
fn delay_tick_at_threshold_decrements_once() {
    // 17 ms is the first whole millisecond past one sixtieth of a second.
    let mut d = Delay { count: 5, last_ms: 1000 };
    d.tick_at(1017);
    assert_eq!(d.count, 4);
    assert_eq!(d.last_ms, 1017);
}

#[test]
fn delay_tick_long_gap_decrements_only_once() {
    let mut d = Delay { count: 5, last_ms: 1000 };
    d.tick_at(99999);
    assert_eq!(d.count, 4);
}

#[test]
fn delay_zero_never_goes_below_zero() {
    let mut d = Delay { count: 0, last_ms: 0 };
    d.tick_at(1000000);
    assert_eq!(d.count, 0);
}

#[test]
fn delay_set_resets_reference() {
    let mut d = Delay { count: 3, last_ms: 7 };
    d.set_at(9, 500);
    assert_eq!(d.count, 9);
    assert_eq!(d.last_ms, 500);
    assert_eq!(d.get_count(), 9);
}

#[test]
fn delay_set_count_and_get_count() {
    let mut d = Delay::new();
    assert_eq!(d.get_count(), 0);
    d.set_count(42);
    assert_eq!(d.get_count(), 42);
}

#[test]
fn sound_counts_down_like_delay() {
    let mut s = Sound { timer: Delay { count: 2, last_ms: 0 } };
    s.tick_at(16);
    assert_eq!(s.get_count(), 2);
    s.tick_at(17);
    assert_eq!(s.get_count(), 1);
    s.set_at(8, 100);
    assert_eq!(s.get_count(), 8);
}

#[test]
fn draw_point_collision_cycle() {
    let mut disp = Display::new();
    let first = disp.draw_point((10, 20), true);
    let second = disp.draw_point((10, 20), true);
    let third = disp.draw_point((10, 20), true);
    assert_eq!(first, false);
    assert_eq!(second, true);
    assert_eq!(third, false);
    assert!(disp.is_on(10, 20));
}

#[test]
fn draw_point_off_request_changes_nothing() {
    let mut disp = Display::new();
    let c = disp.draw_point((3, 4), false);
    assert!(!c);
    assert!(!disp.is_on(3, 4));
    disp.draw_point((3, 4), true);
    let c2 = disp.draw_point((3, 4), false);
    assert!(!c2);
    assert!(disp.is_on(3, 4));
}

#[test]
fn display_clear_turns_everything_off() {
    let mut disp = Display::new();
    disp.draw_point((0, 0), true);
    disp.draw_point((63, 31), true);
    disp.clear();
    assert!(!disp.is_on(0, 0));
    assert!(!disp.is_on(63, 31));
}

#[test]
fn keyboard_latch_and_last() {
    let mut k = Keyboard::new();
    assert_eq!(k.get_last_key(), None);
    k.latch(3);
    k.latch(7);
    assert_eq!(k.get_last_key(), Some(7));
    assert!(k.contains(3));
    assert!(!k.contains(5));
}

#[test]
fn keyboard_clear_empties_latch() {
    let mut k = Keyboard::new();
    k.latch(1);
    k.clear();
    assert_eq!(k.get_last_key(), None);
    assert!(!k.contains(1));
}

#[test]
fn keyboard_rem_val_drops_all_occurrences() {
    let mut k = Keyboard::new();
    k.latch(KEY_REDRAW);
    k.latch(4);
    k.latch(KEY_REDRAW);
    k.latch(9);
    k.rem_val(KEY_REDRAW);
    assert!(!k.contains(KEY_REDRAW));
    assert!(k.contains(4));
    assert_eq!(k.get_last_key(), Some(9));
    assert!(KEY_QUIT != KEY_REDRAW);
}

#[test]
fn add_with_carry_exhaustive() {
    let mut vm = Chip8::new();
    for a in 0..=255u16 {
        for b in 0..=255u16 {
            let r = vm.add_with_carry(a as u8, b as u8);
            assert_eq!(r as u16, (a + b) % 256);
            let flag = vm.registers[15];
            assert_eq!(flag == 1, a + b >= 256);
            assert_eq!(flag == 0, a + b < 256);
        }
    }
}

#[test]
fn sub_with_carry_exhaustive() {
    let mut vm = Chip8::new();
    for a in 0..=255i32 {
        for b in 0..=255i32 {
            let r = vm.sub_with_carry(a as u8, b as u8);
            assert_eq!(r as i32, (a - b).rem_euclid(256));
            let flag = vm.registers[15];
            assert_eq!(flag == 1, a > b);
            assert_eq!(flag == 0, a <= b);
        }
    }
}
