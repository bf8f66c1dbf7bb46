use merit_core::modifiers::FlagsChangedState;
use merit_core::modifiers::FLAG_MASK_ALPHA_SHIFT;
use merit_core::modifiers::FLAG_MASK_CONTROL;
use merit_core::modifiers::FLAG_MASK_SHIFT;

#[test]
fn remapped_caps_lock_to_control_infers_control_logical_keycode() {
    let mut st = FlagsChangedState::new();
    let control_down = FLAG_MASK_CONTROL;

    // Physical keycode is CapsLock (57), but flags indicate Control is down.
    let keycode = st.process_flags_changed(57, control_down);
    assert_eq!(keycode, Some(59)); // ControlLeft
}

#[test]
fn remapped_control_to_caps_lock_infers_caps_lock_logical_keycode() {
    let mut st = FlagsChangedState::new();
    let caps_lock_on = FLAG_MASK_ALPHA_SHIFT;

    // Physical keycode is ControlLeft (59), but flags indicate CapsLock toggled on.
    let keycode = st.process_flags_changed(59, caps_lock_on);
    assert_eq!(keycode, Some(57)); // CapsLock
}

#[test]
fn caps_lock_toggle_off_still_counts_press() {
    let mut st = FlagsChangedState::new();
    // Pretend CapsLock is currently on.
    st.last_flags = FLAG_MASK_ALPHA_SHIFT;

    // Pressing CapsLock toggles it off (alpha shift cleared). We should still emit a press.
    let keycode = st.process_flags_changed(57, 0);
    assert_eq!(keycode, Some(57)); // CapsLock
}

#[test]
fn remapped_modifier_press_then_release_counts_once() {
    // A remapped toggle-to-modifier sequence: the bit set counts one press,
    // the bit cleared counts nothing for a non-toggle group.
    let mut st = FlagsChangedState::new();
    let press = st.process_flags_changed(57, FLAG_MASK_SHIFT);
    assert_eq!(press, Some(56)); // ShiftLeft
    let release = st.process_flags_changed(57, 0);
    assert_eq!(release, None);
}

#[test]
fn holding_second_key_of_same_group_counts_its_own_press() {
    let mut st = FlagsChangedState::new();
    // ShiftLeft down: bit sets, press counted.
    assert_eq!(st.process_flags_changed(56, FLAG_MASK_SHIFT), Some(56));
    // ShiftRight down while ShiftLeft held: no bit change, the active group
    // still yields a press for the right-side key.
    assert_eq!(st.process_flags_changed(60, FLAG_MASK_SHIFT), Some(60));
    // ShiftRight again without release: no 0-to-1 transition, no press.
    assert_eq!(st.process_flags_changed(60, FLAG_MASK_SHIFT), None);
}
