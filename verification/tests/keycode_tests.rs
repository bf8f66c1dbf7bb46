use merit_core::interning::InternCache;
use merit_core::keycodes::from_macos_virtual_keycode;
use merit_core::keycodes::from_macos_virtual_keycode_arc;
use merit_core::keycodes::from_rdev_key_name;
use merit_core::keycodes::intern;
use merit_core::keycodes::normalize_macos_key_code;
use merit_core::modifiers::mouse_button_code;
use merit_core::modifiers::RawMouseButton;

#[test]
fn intern_returns_stable_arc_for_canonical_code() {
    let a = intern("KeyA");
    let b = intern("KeyA");
    assert!(a == b);
    assert_eq!(a.as_str(), "KeyA");
}

#[test]
fn macos_keycode_mapping_is_normalized_and_interned() {
    let a = from_macos_virtual_keycode_arc(0).expect("KeyA");
    assert!(a == intern("KeyA"));

    // The right-side Control keycode (62) normalizes to ControlLeft.
    let ctrl = from_macos_virtual_keycode_arc(62).expect("Control");
    assert!(ctrl == intern("ControlLeft"));
}

#[test]
fn keycode_table_maps_known_codes() {
    assert_eq!(from_macos_virtual_keycode(36), Some("Enter"));
    assert_eq!(from_macos_virtual_keycode(49), Some("Space"));
    assert_eq!(from_macos_virtual_keycode(57), Some("CapsLock"));
    assert_eq!(from_macos_virtual_keycode(126), Some("ArrowUp"));
    assert_eq!(from_macos_virtual_keycode(10), None);
    assert_eq!(from_macos_virtual_keycode(200), None);
}

#[test]
fn normalize_keeps_left_side_codes() {
    assert_eq!(normalize_macos_key_code("ControlRight"), "ControlLeft");
    assert_eq!(normalize_macos_key_code("ControlLeft"), "ControlLeft");
    assert_eq!(normalize_macos_key_code("KeyA"), "KeyA");
}

#[test]
fn hook_key_names_map_to_canonical_codes() {
    assert_eq!(from_rdev_key_name("KeyA"), Some("KeyA"));
    assert_eq!(from_rdev_key_name("Dot"), Some("Period"));
    assert_eq!(from_rdev_key_name("Kp0"), Some("Numpad0"));
    assert_eq!(from_rdev_key_name("KpReturn"), Some("Enter"));
    assert_eq!(from_rdev_key_name("Return"), Some("Enter"));
    assert_eq!(from_rdev_key_name("LeftArrow"), Some("ArrowLeft"));
    assert_eq!(from_rdev_key_name("SemiColon"), Some("Semicolon"));
    assert_eq!(from_rdev_key_name("AltGr"), Some("AltRight"));
    assert_eq!(from_rdev_key_name("NoSuchKey"), None);
}

#[test]
fn mouse_buttons_map_to_counting_codes() {
    assert_eq!(mouse_button_code(RawMouseButton::Left), Some("MouseLeft"));
    assert_eq!(mouse_button_code(RawMouseButton::Right), Some("MouseRight"));
    assert_eq!(mouse_button_code(RawMouseButton::Other), None);
}

#[test]
fn intern_cache_hands_out_same_text_and_stays_bounded() {
    let mut cache = InternCache::new(64);
    for round in 0..3u32 {
        for i in 0..100u32 {
            let s = format!("code{}", i);
            let out = cache.intern_str(&s);
            assert_eq!(out, s);
        }
        let _ = round;
    }
    assert!(cache.entries.len() <= cache.cap);
}
