use chip8::{Keyboard, Render, Vec2};

#[test]
fn set_pixel_toggles_and_reports_erase() {
    let mut r = Render::new(10, 32, 64);
    assert_eq!(r.len(), 2048);
    assert_eq!(r.set_pixel(3, 2), 0);
    assert!(r.get(2 * 64 + 3));
    assert_eq!(r.set_pixel(3, 2), 1);
    assert!(!r.get(2 * 64 + 3));
}

#[test]
fn set_pixel_wraps() {
    let mut r = Render::new(1, 32, 64);
    assert_eq!(r.set_pixel(64 + 5, 32 + 1), 0);
    assert!(r.get(64 + 5));
}

#[test]
fn clear_unsets_everything() {
    let mut r = Render::new(1, 4, 4);
    r.set_pixel(1, 1);
    r.set_pixel(2, 3);
    r.clear();
    assert!((0..16).all(|i| !r.get(i)));
    assert_eq!(r.len(), 16);
}

#[test]
fn render_gives_scaled_corners() {
    let mut r = Render::new(10, 32, 64);
    r.set_pixel(3, 2);
    r.set_pixel(0, 0);
    r.set_pixel(63, 31);
    assert_eq!(r.render(), vec![(0, 0), (30, 20), (630, 310)]);
}

#[test]
fn keyboard_layout() {
    let k = Keyboard::default();
    assert_eq!(k.lookup('1' as usize), Some(0x1));
    assert_eq!(k.lookup('4' as usize), Some(0xC));
    assert_eq!(k.lookup('Q' as usize), Some(0x4));
    assert_eq!(k.lookup('X' as usize), Some(0x0));
    assert_eq!(k.lookup('V' as usize), Some(0xF));
    assert_eq!(k.lookup('P' as usize), None);
}

#[test]
fn keyboard_snapshot() {
    let k = Keyboard::default();
    let keys = k.snapshot(&vec!['W' as usize, 'P' as usize, 'C' as usize]);
    let mut expected = [false; 16];
    expected[0x5] = true;
    expected[0xB] = true;
    assert_eq!(keys, expected);
}

#[test]
fn area_of_screen() {
    assert_eq!(Vec2 { width: 64, height: 32 }.prod(), 2048);
}
