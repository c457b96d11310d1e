use chip8_bridge::bridge::{SCREEN_HEIGHT, SCREEN_WIDTH};
use chip8_bridge::render::squares_for;
use chip8_bridge::{key2btn, CpuWasm, Square};

#[test]
fn keymap_table_forwards_documented_indices() {
    let table: [(&str, usize); 16] = [
        ("1", 0x1),
        ("2", 0x2),
        ("3", 0x3),
        ("4", 0xC),
        ("q", 0x4),
        ("w", 0x5),
        ("e", 0x6),
        ("r", 0xD),
        ("a", 0x7),
        ("s", 0x8),
        ("d", 0x9),
        ("f", 0xE),
        ("z", 0xA),
        ("x", 0x0),
        ("c", 0xB),
        ("v", 0xF),
    ];
    for (key, idx) in table {
        assert_eq!(key2btn(key), Some(idx));
    }
}

#[test]
fn keymap_misses_yield_no_mapping() {
    assert_eq!(key2btn("g"), None);
    assert_eq!(key2btn("5"), None);
    assert_eq!(key2btn(""), None);
    assert_eq!(key2btn("qq"), None);
    assert_eq!(key2btn(" "), None);
}

#[test]
fn keymap_is_case_sensitive() {
    assert_eq!(key2btn("Q"), None);
    assert_eq!(key2btn("A"), None);
    assert_eq!(key2btn("V"), None);
}

#[test]
fn new_bridge_shows_blank_display_and_released_keys() {
    let bridge = CpuWasm::new();
    let display = bridge.get_display();
    assert_eq!(display.len(), SCREEN_WIDTH * SCREEN_HEIGHT);
    assert!(display.iter().all(|cell| !cell));
    let keys = bridge.get_keys();
    assert_eq!(keys.len(), 16);
    assert!(keys.iter().all(|key| !key));
}

#[test]
fn default_bridge_matches_new() {
    let bridge = CpuWasm::default();
    assert_eq!(bridge.get_display(), CpuWasm::new().get_display());
    assert_eq!(bridge.get_keys(), CpuWasm::new().get_keys());
}

#[test]
fn keypress_forwards_mapped_keys() {
    let mut bridge = CpuWasm::new();
    bridge.keypress("q", true);
    let keys = bridge.get_keys();
    assert!(keys[0x4]);
    assert_eq!(keys.iter().filter(|pressed| **pressed).count(), 1);
    bridge.keypress("q", false);
    assert!(!bridge.get_keys()[0x4]);
    bridge.keypress("1", true);
    assert!(bridge.get_keys()[0x1]);
}

#[test]
fn keypress_ignores_unmapped_keys() {
    let mut bridge = CpuWasm::new();
    bridge.keypress("g", true);
    bridge.keypress("Enter", true);
    assert!(bridge.get_keys().iter().all(|key| !key));
}

#[test]
fn reset_is_idempotent_on_observable_state() {
    let mut bridge = CpuWasm::new();
    bridge.keypress("w", true);
    bridge.reset();
    let once = bridge.get_display();
    bridge.reset();
    bridge.reset();
    let thrice = bridge.get_display();
    assert_eq!(once, thrice);
    assert!(thrice.iter().all(|cell| !cell));
    assert!(bridge.get_keys().iter().all(|key| !key));
    assert_eq!(CpuWasm::new().get_display(), thrice);
}

#[test]
fn load_leaves_display_untouched_and_reset_clears() {
    let mut bridge = CpuWasm::new();
    bridge.load_game(&[0xAA, 0x55, 0x12]);
    assert!(bridge.get_display().iter().all(|cell| !cell));
    bridge.reset();
    assert!(bridge.get_display().iter().all(|cell| !cell));
    assert!(bridge.get_keys().iter().all(|key| !key));
}

#[test]
fn clear_screen_program_paints_nothing() {
    let mut bridge = CpuWasm::new();
    bridge.load_game(&[0x00, 0xE0]);
    bridge.tick();
    let squares = bridge.draw_screen(10);
    assert!(squares.is_empty());
}

#[test]
fn sprite_draw_reaches_the_framebuffer() {
    // I = 0 points at the font sprite for 0, whose first row is 0xF0;
    // drawing one row at (V0, V0) = (0, 0) lights cells 0 through 3.
    let mut bridge = CpuWasm::new();
    bridge.load_game(&[0xA0, 0x00, 0xD0, 0x01]);
    bridge.tick();
    bridge.tick();
    let display = bridge.get_display();
    for (i, cell) in display.iter().enumerate() {
        assert_eq!(*cell, i < 4, "cell {}", i);
    }
    let squares = bridge.draw_screen(2);
    let expected = [
        Square { x: 0, y: 0, size: 2 },
        Square { x: 2, y: 0, size: 2 },
        Square { x: 4, y: 0, size: 2 },
        Square { x: 6, y: 0, size: 2 },
    ];
    assert_eq!(squares, expected);
}

#[test]
fn tick_timers_leaves_observable_state_alone() {
    let mut bridge = CpuWasm::new();
    bridge.keypress("s", true);
    let display = bridge.get_display();
    let keys = bridge.get_keys();
    bridge.tick_timers();
    bridge.tick_timers();
    assert_eq!(bridge.get_display(), display);
    assert_eq!(bridge.get_keys(), keys);
}

#[test]
fn squares_for_two_by_two_at_scale_five() {
    let fb = vec![true, false, false, true];
    let squares = squares_for(&fb, 2, 5);
    let expected = [
        Square { x: 0, y: 0, size: 5 },
        Square { x: 5, y: 5, size: 5 },
    ];
    assert_eq!(squares, expected);
}

#[test]
fn squares_for_paints_nothing_at_scale_zero() {
    let fb = vec![true, true, true, true];
    assert!(squares_for(&fb, 2, 0).is_empty());
}

#[test]
fn squares_for_skips_unlit_cells() {
    let fb = vec![false, false, false, false, false, false];
    assert!(squares_for(&fb, 3, 4).is_empty());
    let fb = vec![false, true, false, false, false, true];
    let squares = squares_for(&fb, 3, 4);
    let expected = [
        Square { x: 4, y: 0, size: 4 },
        Square { x: 8, y: 4, size: 4 },
    ];
    assert_eq!(squares, expected);
}

#[test]
fn draw_screen_positions_follow_row_major_order() {
    let mut bridge = CpuWasm::new();
    // With V0 = 60, the 0 sprite's first row (0xF0) lands at columns
    // 60..=63 of row 60 mod 32 = 28, so four squares come back, in
    // ascending column order, at the cell positions times the scale.
    bridge.load_game(&[0x60, 0x3C, 0xA0, 0x00, 0xD0, 0x01]);
    bridge.tick();
    bridge.tick();
    bridge.tick();
    let squares = bridge.draw_screen(3);
    let expected = [
        Square { x: 180, y: 84, size: 3 },
        Square { x: 183, y: 84, size: 3 },
        Square { x: 186, y: 84, size: 3 },
        Square { x: 189, y: 84, size: 3 },
    ];
    assert_eq!(squares, expected);
}
