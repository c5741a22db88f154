use mesh_render::input::{Key, KeyState};

#[test]
fn key_codes_match_platform_codes() {
    assert_eq!(Key::W.code(), 13);
    assert_eq!(Key::A.code(), 0);
    assert_eq!(Key::S.code(), 1);
    assert_eq!(Key::D.code(), 2);
    assert_eq!(Key::Q.code(), 12);
    assert_eq!(Key::E.code(), 14);
    assert_eq!(Key::SPC.code(), 49);
    assert_eq!(Key::C.code(), 8);
    assert_eq!(Key::R.code(), 15);
    assert_eq!(Key::F.code(), 3);
}

#[test]
fn empty_key_state_holds_nothing() {
    let keys = KeyState::new();
    assert!(!Key::W.is_pressed(&keys));
    assert!(!Key::SPC.is_pressed(&keys));
}

#[test]
fn press_then_release() {
    let mut keys = KeyState::new();
    keys.press(13);
    keys.press(13);
    keys.press(0);
    assert!(Key::W.is_pressed(&keys));
    assert!(Key::A.is_pressed(&keys));
    assert!(!Key::S.is_pressed(&keys));
    keys.release(13);
    assert!(!Key::W.is_pressed(&keys));
    assert!(Key::A.is_pressed(&keys));
    keys.release(99);
    assert!(keys.contains(0));
    assert!(!keys.contains(99));
}
