//! The classification helpers around the global input listener: shift
//! effectiveness, shortcut ids, the cross-platform modifier state, and the
//! listener's control flags.

use vstd::prelude::*;

use crate::settings::Settings;
use crate::strtools::str_eq;

verus! {

/// A letter key code: `Key` followed by one capital letter.
pub open spec fn spec_is_letter_code(s: Seq<char>) -> bool {
    s.len() == 4 && s[0] == 'K' && s[1] == 'e' && s[2] == 'y' && 'A' <= s[3] <= 'Z'
}

/// Whether a code names a letter key.
pub fn is_letter_code(code: &str) -> (r: bool)
    ensures
        r == spec_is_letter_code(code@),
{
    if code.unicode_len() != 4 {
        return false;
    }
    let c0 = code.get_char(0);
    let c1 = code.get_char(1);
    let c2 = code.get_char(2);
    let c3 = code.get_char(3);
    c0 == 'K' && c1 == 'e' && c2 == 'y' && 'A' <= c3 && c3 <= 'Z'
}

/// Whether a code names a modifier key.
pub open spec fn spec_is_modifier_code(s: Seq<char>) -> bool {
    ||| s == "ShiftLeft"@
    ||| s == "ShiftRight"@
    ||| s == "ControlLeft"@
    ||| s == "ControlRight"@
    ||| s == "AltLeft"@
    ||| s == "AltRight"@
    ||| s == "MetaLeft"@
    ||| s == "MetaRight"@
    ||| s == "CapsLock"@
}

/// Whether a code names a modifier key.
pub fn is_modifier_code(code: &str) -> (r: bool)
    ensures
        r == spec_is_modifier_code(code@),
{
    str_eq(code, "ShiftLeft") || str_eq(code, "ShiftRight") || str_eq(code, "ControlLeft")
        || str_eq(code, "ControlRight") || str_eq(code, "AltLeft") || str_eq(code, "AltRight")
        || str_eq(code, "MetaLeft") || str_eq(code, "MetaRight") || str_eq(code, "CapsLock")
}

/// Whether a press counts as shifted: for letters, Shift and Caps Lock
/// cancel each other; for everything else only Shift decides.
pub fn effective_shifted(code: &str, shift_down: bool, caps_lock: bool) -> (r: bool)
    ensures
        spec_is_letter_code(code@) ==> r == (shift_down != caps_lock),
        !spec_is_letter_code(code@) ==> r == shift_down,
{
    if is_letter_code(code) {
        shift_down != caps_lock
    } else {
        shift_down
    }
}

/// The id of a shortcut press: active modifiers in fixed order, then the
/// key, joined with `+`.
pub open spec fn spec_shortcut_id(
    meta: bool,
    ctrl: bool,
    alt: bool,
    shift: bool,
    code: Seq<char>,
) -> Seq<char> {
    (if meta {
        "Meta+"@
    } else {
        Seq::<char>::empty()
    }) + (if ctrl {
        "Ctrl+"@
    } else {
        Seq::<char>::empty()
    }) + (if alt {
        "Alt+"@
    } else {
        Seq::<char>::empty()
    }) + (if shift {
        "Shift+"@
    } else {
        Seq::<char>::empty()
    }) + code
}

/// Builds the id of a shortcut press.
pub fn shortcut_id(meta: bool, ctrl: bool, alt: bool, shift: bool, code: &str) -> (r: String)
    ensures
        r@ == spec_shortcut_id(meta, ctrl, alt, shift, code@),
{
    let mut out = String::new();
    if meta {
        out.append("Meta+");
    }
    if ctrl {
        out.append("Ctrl+");
    }
    if alt {
        out.append("Alt+");
    }
    if shift {
        out.append("Shift+");
    }
    out.append(code);
    proof {
        assert(out@ =~= spec_shortcut_id(meta, ctrl, alt, shift, code@));
    }
    out
}

/// Classifies one global key press for counting: whether it counts as
/// shifted, and the shortcut id it belongs to. A shortcut forms exactly
/// when a chord modifier (Control, Alt or Meta) is held and the key itself
/// is not a modifier.
pub fn classify_global_key_down(
    code: &str,
    shift_down: bool,
    caps_lock: bool,
    ctrl: bool,
    alt: bool,
    meta: bool,
) -> (r: (bool, Option<String>))
    ensures
        spec_is_letter_code(code@) ==> r.0 == (shift_down != caps_lock),
        !spec_is_letter_code(code@) ==> r.0 == shift_down,
        r.1 is Some <==> ((ctrl || alt || meta) && !spec_is_modifier_code(code@)),
        r.1 is Some ==> r.1->0@ == spec_shortcut_id(meta, ctrl, alt, shift_down, code@),
{
    let is_shifted = effective_shifted(code, shift_down, caps_lock);
    let shortcut = if (ctrl || alt || meta) && !is_modifier_code(code) {
        Some(shortcut_id(meta, ctrl, alt, shift_down, code))
    } else {
        None
    };
    (is_shifted, shortcut)
}

/// The held-modifier state of the cross-platform hook, tracked from press
/// and release callbacks per key name.
#[derive(Debug, Clone, Copy, PartialEq, Eq, Structural)]
pub struct ModState {
    pub shift_left: bool,
    pub shift_right: bool,
    pub ctrl_left: bool,
    pub ctrl_right: bool,
    pub alt_left: bool,
    pub alt_right: bool,
    pub meta_left: bool,
    pub meta_right: bool,
    pub caps_lock: bool,
}

impl ModState {
    /// Nothing held, Caps Lock off.
    pub fn new() -> (r: ModState)
        ensures
            r == (ModState {
                shift_left: false,
                shift_right: false,
                ctrl_left: false,
                ctrl_right: false,
                alt_left: false,
                alt_right: false,
                meta_left: false,
                meta_right: false,
                caps_lock: false,
            }),
    {
        ModState {
            shift_left: false,
            shift_right: false,
            ctrl_left: false,
            ctrl_right: false,
            alt_left: false,
            alt_right: false,
            meta_left: false,
            meta_right: false,
            caps_lock: false,
        }
    }

    /// Either Shift held.
    pub fn shift(&self) -> (r: bool)
        ensures
            r == (self.shift_left || self.shift_right),
    {
        self.shift_left || self.shift_right
    }

    /// Either Control held.
    pub fn ctrl(&self) -> (r: bool)
        ensures
            r == (self.ctrl_left || self.ctrl_right),
    {
        self.ctrl_left || self.ctrl_right
    }

    /// Either Alt held.
    pub fn alt(&self) -> (r: bool)
        ensures
            r == (self.alt_left || self.alt_right),
    {
        self.alt_left || self.alt_right
    }

    /// Either Meta held.
    pub fn meta(&self) -> (r: bool)
        ensures
            r == (self.meta_left || self.meta_right),
    {
        self.meta_left || self.meta_right
    }

    /// The state after a key press of the named key: the matching modifier
    /// flag sets; Caps Lock toggles; other keys change nothing.
    pub open spec fn spec_press(self, name: Seq<char>) -> ModState {
        if name == "ShiftLeft"@ {
            ModState { shift_left: true, ..self }
        } else if name == "ShiftRight"@ {
            ModState { shift_right: true, ..self }
        } else if name == "Alt"@ || name == "AltLeft"@ {
            ModState { alt_left: true, ..self }
        } else if name == "AltGr"@ || name == "AltRight"@ {
            ModState { alt_right: true, ..self }
        } else if name == "ControlLeft"@ {
            ModState { ctrl_left: true, ..self }
        } else if name == "ControlRight"@ {
            ModState { ctrl_right: true, ..self }
        } else if name == "MetaLeft"@ || name == "Super"@ {
            ModState { meta_left: true, ..self }
        } else if name == "MetaRight"@ {
            ModState { meta_right: true, ..self }
        } else if name == "CapsLock"@ {
            ModState { caps_lock: !self.caps_lock, ..self }
        } else {
            self
        }
    }

    /// Applies a key press by raw key name.
    pub fn on_key_press(&mut self, name: &str)
        ensures
            *final(self) == old(self).spec_press(name@),
    {
        if str_eq(name, "ShiftLeft") {
            self.shift_left = true;
        } else if str_eq(name, "ShiftRight") {
            self.shift_right = true;
        } else if str_eq(name, "Alt") || str_eq(name, "AltLeft") {
            self.alt_left = true;
        } else if str_eq(name, "AltGr") || str_eq(name, "AltRight") {
            self.alt_right = true;
        } else if str_eq(name, "ControlLeft") {
            self.ctrl_left = true;
        } else if str_eq(name, "ControlRight") {
            self.ctrl_right = true;
        } else if str_eq(name, "MetaLeft") || str_eq(name, "Super") {
            self.meta_left = true;
        } else if str_eq(name, "MetaRight") {
            self.meta_right = true;
        } else if str_eq(name, "CapsLock") {
            self.caps_lock = !self.caps_lock;
        }
    }

    /// The state after a key release: the matching flag clears; Caps Lock
    /// keeps its toggle; other keys change nothing.
    pub open spec fn spec_release(self, name: Seq<char>) -> ModState {
        if name == "ShiftLeft"@ {
            ModState { shift_left: false, ..self }
        } else if name == "ShiftRight"@ {
            ModState { shift_right: false, ..self }
        } else if name == "Alt"@ || name == "AltLeft"@ {
            ModState { alt_left: false, ..self }
        } else if name == "AltGr"@ || name == "AltRight"@ {
            ModState { alt_right: false, ..self }
        } else if name == "ControlLeft"@ {
            ModState { ctrl_left: false, ..self }
        } else if name == "ControlRight"@ {
            ModState { ctrl_right: false, ..self }
        } else if name == "MetaLeft"@ || name == "Super"@ {
            ModState { meta_left: false, ..self }
        } else if name == "MetaRight"@ {
            ModState { meta_right: false, ..self }
        } else {
            self
        }
    }

    /// Applies a key release by raw key name.
    pub fn on_key_release(&mut self, name: &str)
        ensures
            *final(self) == old(self).spec_release(name@),
    {
        if str_eq(name, "ShiftLeft") {
            self.shift_left = false;
        } else if str_eq(name, "ShiftRight") {
            self.shift_right = false;
        } else if str_eq(name, "Alt") || str_eq(name, "AltLeft") {
            self.alt_left = false;
        } else if str_eq(name, "AltGr") || str_eq(name, "AltRight") {
            self.alt_right = false;
        } else if str_eq(name, "ControlLeft") {
            self.ctrl_left = false;
        } else if str_eq(name, "ControlRight") {
            self.ctrl_right = false;
        } else if str_eq(name, "MetaLeft") || str_eq(name, "Super") {
            self.meta_left = false;
        } else if str_eq(name, "MetaRight") {
            self.meta_right = false;
        }
    }
}

/// The last cursor position the hook reported.
#[derive(Debug, Clone, Copy, PartialEq, Eq, Structural)]
pub struct MouseState {
    pub x: i64,
    pub y: i64,
    pub has_position: bool,
}

/// Why the global listener could not run.
#[derive(Debug, Clone, Copy, PartialEq, Eq, Structural)]
pub enum InputListenerErrorCode {
    PermissionRequired,
    ListenFailed,
}

/// A listener failure surfaced to the user.
#[derive(Debug)]
pub struct InputListenerError {
    pub code: InputListenerErrorCode,
    pub message: String,
}

/// The listener's control flags: whether global events count, a temporary
/// mouse suppression, and the last failure.
#[derive(Debug)]
pub struct ListenerControl {
    pub enabled: bool,
    pub suppress_mouse_until_ms: u64,
    pub last_error: Option<InputListenerError>,
}

impl ListenerControl {
    /// Listening on, nothing suppressed, no failure.
    pub fn new() -> (r: ListenerControl)
        ensures
            r.enabled,
            r.suppress_mouse_until_ms == 0,
            r.last_error is None,
    {
        ListenerControl { enabled: true, suppress_mouse_until_ms: 0, last_error: None }
    }

    /// Gates future global events; enabling clears the last failure.
    pub fn set_listening_enabled(&mut self, enabled: bool)
        ensures
            final(self).enabled == enabled,
            final(self).suppress_mouse_until_ms == old(self).suppress_mouse_until_ms,
            enabled ==> final(self).last_error is None,
            !enabled ==> final(self).last_error == old(self).last_error,
    {
        self.enabled = enabled;
        if enabled {
            self.last_error = None;
        }
    }

    /// Whether global events are currently counted.
    pub fn is_listening_enabled(&self) -> (r: bool)
        ensures
            r == self.enabled,
    {
        self.enabled
    }

    /// Ignores global mouse presses for the next `ms` milliseconds.
    pub fn suppress_mouse_for(&mut self, ms: u64, now_ms: u64)
        ensures
            final(self).suppress_mouse_until_ms == now_ms.saturating_add(ms),
            final(self).enabled == old(self).enabled,
            final(self).last_error == old(self).last_error,
    {
        self.suppress_mouse_until_ms = now_ms.saturating_add(ms);
    }

    /// Whether a mouse press arriving now is suppressed.
    pub fn should_suppress_mouse_press(&self, now_ms: u64) -> (r: bool)
        ensures
            r == (now_ms < self.suppress_mouse_until_ms),
    {
        now_ms < self.suppress_mouse_until_ms
    }

    /// Records a listener failure.
    pub fn record_error(&mut self, error: InputListenerError)
        ensures
            final(self).last_error == Some(error),
            final(self).enabled == old(self).enabled,
            final(self).suppress_mouse_until_ms == old(self).suppress_mouse_until_ms,
    {
        self.last_error = Some(error);
    }

    /// The last failure, if one stands.
    pub fn last_error(&self) -> (r: &Option<InputListenerError>)
        ensures
            r == &self.last_error,
    {
        &self.last_error
    }
}

/// One key event for the keyboard-piano feature.
#[derive(Debug)]
pub struct KeyboardPianoKeyEvent {
    pub code: String,
}

/// The keyboard-piano gate: which key presses are worth a piano note.
#[derive(Debug, Clone, Copy, PartialEq, Eq, Structural)]
pub struct KeyboardPiano {
    pub enabled: bool,
}

impl KeyboardPiano {
    /// Off until settings say otherwise.
    pub fn new() -> (r: KeyboardPiano)
        ensures
            !r.enabled,
    {
        KeyboardPiano { enabled: false }
    }

    /// Follows the user's setting.
    pub fn apply_settings(&mut self, settings: &Settings)
        ensures
            final(self).enabled == settings.keyboard_piano_enabled,
    {
        self.enabled = settings.keyboard_piano_enabled;
    }

    /// Whether piano notes play at all.
    pub fn is_enabled(&self) -> (r: bool)
        ensures
            r == self.enabled,
    {
        self.enabled
    }

    /// Whether this key press gets a note: the feature is on and the key is
    /// neither empty nor a modifier nor the Fn key.
    pub fn should_emit_key(&self, code: &str) -> (r: bool)
        ensures
            r == (self.enabled && code@.len() > 0 && !spec_is_modifier_code(code@) && code@
                != "Fn"@),
    {
        self.enabled && code.unicode_len() > 0 && !is_modifier_code(code) && !str_eq(code, "Fn")
    }
}

} // verus!
