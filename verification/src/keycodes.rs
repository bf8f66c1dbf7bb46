//! Canonical key codes.
//!
//! Raw platform key identifiers map to a canonical code set that largely
//! follows the web KeyboardEvent code naming; the virtual-keycode table
//! comes from the platform's own constants. Remapped right-side modifier
//! variants normalize to stable left-side codes for counting.

use vstd::prelude::*;

use crate::counter_map::copy_str;
use crate::strtools::str_eq;

verus! {

/// The canonical code of a platform virtual keycode, or `None` for an
/// unmapped code.
pub open spec fn spec_macos_keycode(keycode: u16) -> Option<&'static str> {
    if keycode == 0 {
        Some("KeyA")
    } else if keycode == 1 {
        Some("KeyS")
    } else if keycode == 2 {
        Some("KeyD")
    } else if keycode == 3 {
        Some("KeyF")
    } else if keycode == 4 {
        Some("KeyH")
    } else if keycode == 5 {
        Some("KeyG")
    } else if keycode == 6 {
        Some("KeyZ")
    } else if keycode == 7 {
        Some("KeyX")
    } else if keycode == 8 {
        Some("KeyC")
    } else if keycode == 9 {
        Some("KeyV")
    } else if keycode == 11 {
        Some("KeyB")
    } else if keycode == 12 {
        Some("KeyQ")
    } else if keycode == 13 {
        Some("KeyW")
    } else if keycode == 14 {
        Some("KeyE")
    } else if keycode == 15 {
        Some("KeyR")
    } else if keycode == 16 {
        Some("KeyY")
    } else if keycode == 17 {
        Some("KeyT")
    } else if keycode == 18 {
        Some("Digit1")
    } else if keycode == 19 {
        Some("Digit2")
    } else if keycode == 20 {
        Some("Digit3")
    } else if keycode == 21 {
        Some("Digit4")
    } else if keycode == 22 {
        Some("Digit6")
    } else if keycode == 23 {
        Some("Digit5")
    } else if keycode == 24 {
        Some("Equal")
    } else if keycode == 25 {
        Some("Digit9")
    } else if keycode == 26 {
        Some("Digit7")
    } else if keycode == 27 {
        Some("Minus")
    } else if keycode == 28 {
        Some("Digit8")
    } else if keycode == 29 {
        Some("Digit0")
    } else if keycode == 30 {
        Some("BracketRight")
    } else if keycode == 31 {
        Some("KeyO")
    } else if keycode == 32 {
        Some("KeyU")
    } else if keycode == 33 {
        Some("BracketLeft")
    } else if keycode == 34 {
        Some("KeyI")
    } else if keycode == 35 {
        Some("KeyP")
    } else if keycode == 36 {
        Some("Enter")
    } else if keycode == 37 {
        Some("KeyL")
    } else if keycode == 38 {
        Some("KeyJ")
    } else if keycode == 39 {
        Some("Quote")
    } else if keycode == 40 {
        Some("KeyK")
    } else if keycode == 41 {
        Some("Semicolon")
    } else if keycode == 42 {
        Some("Backslash")
    } else if keycode == 43 {
        Some("Comma")
    } else if keycode == 44 {
        Some("Slash")
    } else if keycode == 45 {
        Some("KeyN")
    } else if keycode == 46 {
        Some("KeyM")
    } else if keycode == 47 {
        Some("Period")
    } else if keycode == 48 {
        Some("Tab")
    } else if keycode == 49 {
        Some("Space")
    } else if keycode == 50 {
        Some("Backquote")
    } else if keycode == 51 {
        Some("Backspace")
    } else if keycode == 53 {
        Some("Escape")
    } else if keycode == 54 {
        Some("MetaRight")
    } else if keycode == 55 {
        Some("MetaLeft")
    } else if keycode == 56 {
        Some("ShiftLeft")
    } else if keycode == 57 {
        Some("CapsLock")
    } else if keycode == 58 {
        Some("AltLeft")
    } else if keycode == 59 {
        Some("ControlLeft")
    } else if keycode == 60 {
        Some("ShiftRight")
    } else if keycode == 61 {
        Some("AltRight")
    } else if keycode == 62 {
        Some("ControlRight")
    } else if keycode == 63 {
        Some("Fn")
    } else if keycode == 65 {
        Some("NumpadDecimal")
    } else if keycode == 67 {
        Some("NumpadMultiply")
    } else if keycode == 69 {
        Some("NumpadAdd")
    } else if keycode == 71 {
        Some("NumLock")
    } else if keycode == 72 {
        Some("Pause")
    } else if keycode == 75 {
        Some("NumpadDivide")
    } else if keycode == 76 {
        Some("NumpadEnter")
    } else if keycode == 78 {
        Some("NumpadSubtract")
    } else if keycode == 81 {
        Some("NumpadEqual")
    } else if keycode == 82 {
        Some("Numpad0")
    } else if keycode == 83 {
        Some("Numpad1")
    } else if keycode == 84 {
        Some("Numpad2")
    } else if keycode == 85 {
        Some("Numpad3")
    } else if keycode == 86 {
        Some("Numpad4")
    } else if keycode == 87 {
        Some("Numpad5")
    } else if keycode == 88 {
        Some("Numpad6")
    } else if keycode == 89 {
        Some("Numpad7")
    } else if keycode == 91 {
        Some("Numpad8")
    } else if keycode == 92 {
        Some("Numpad9")
    } else if keycode == 96 {
        Some("F5")
    } else if keycode == 97 {
        Some("F6")
    } else if keycode == 98 {
        Some("F7")
    } else if keycode == 99 {
        Some("F3")
    } else if keycode == 100 {
        Some("F8")
    } else if keycode == 101 {
        Some("F9")
    } else if keycode == 103 {
        Some("F11")
    } else if keycode == 105 {
        Some("F13")
    } else if keycode == 106 {
        Some("F16")
    } else if keycode == 107 {
        Some("F14")
    } else if keycode == 109 {
        Some("F10")
    } else if keycode == 111 {
        Some("F12")
    } else if keycode == 113 {
        Some("F15")
    } else if keycode == 114 {
        Some("Insert")
    } else if keycode == 115 {
        Some("Home")
    } else if keycode == 116 {
        Some("PageUp")
    } else if keycode == 117 {
        Some("Delete")
    } else if keycode == 118 {
        Some("F4")
    } else if keycode == 119 {
        Some("End")
    } else if keycode == 120 {
        Some("F2")
    } else if keycode == 121 {
        Some("PageDown")
    } else if keycode == 122 {
        Some("F1")
    } else if keycode == 123 {
        Some("ArrowLeft")
    } else if keycode == 124 {
        Some("ArrowRight")
    } else if keycode == 125 {
        Some("ArrowDown")
    } else if keycode == 126 {
        Some("ArrowUp")
    } else {
        None
    }
}

/// The canonical code of a platform virtual keycode, or `None` for an
/// unmapped code.
pub fn from_macos_virtual_keycode(keycode: u16) -> (r: Option<&'static str>)
    ensures
        r == spec_macos_keycode(keycode),
{
    match keycode {
        0 => Some("KeyA"),
        1 => Some("KeyS"),
        2 => Some("KeyD"),
        3 => Some("KeyF"),
        4 => Some("KeyH"),
        5 => Some("KeyG"),
        6 => Some("KeyZ"),
        7 => Some("KeyX"),
        8 => Some("KeyC"),
        9 => Some("KeyV"),
        11 => Some("KeyB"),
        12 => Some("KeyQ"),
        13 => Some("KeyW"),
        14 => Some("KeyE"),
        15 => Some("KeyR"),
        16 => Some("KeyY"),
        17 => Some("KeyT"),
        18 => Some("Digit1"),
        19 => Some("Digit2"),
        20 => Some("Digit3"),
        21 => Some("Digit4"),
        22 => Some("Digit6"),
        23 => Some("Digit5"),
        24 => Some("Equal"),
        25 => Some("Digit9"),
        26 => Some("Digit7"),
        27 => Some("Minus"),
        28 => Some("Digit8"),
        29 => Some("Digit0"),
        30 => Some("BracketRight"),
        31 => Some("KeyO"),
        32 => Some("KeyU"),
        33 => Some("BracketLeft"),
        34 => Some("KeyI"),
        35 => Some("KeyP"),
        36 => Some("Enter"),
        37 => Some("KeyL"),
        38 => Some("KeyJ"),
        39 => Some("Quote"),
        40 => Some("KeyK"),
        41 => Some("Semicolon"),
        42 => Some("Backslash"),
        43 => Some("Comma"),
        44 => Some("Slash"),
        45 => Some("KeyN"),
        46 => Some("KeyM"),
        47 => Some("Period"),
        48 => Some("Tab"),
        49 => Some("Space"),
        50 => Some("Backquote"),
        51 => Some("Backspace"),
        53 => Some("Escape"),
        54 => Some("MetaRight"),
        55 => Some("MetaLeft"),
        56 => Some("ShiftLeft"),
        57 => Some("CapsLock"),
        58 => Some("AltLeft"),
        59 => Some("ControlLeft"),
        60 => Some("ShiftRight"),
        61 => Some("AltRight"),
        62 => Some("ControlRight"),
        63 => Some("Fn"),
        65 => Some("NumpadDecimal"),
        67 => Some("NumpadMultiply"),
        69 => Some("NumpadAdd"),
        71 => Some("NumLock"),
        72 => Some("Pause"),
        75 => Some("NumpadDivide"),
        76 => Some("NumpadEnter"),
        78 => Some("NumpadSubtract"),
        81 => Some("NumpadEqual"),
        82 => Some("Numpad0"),
        83 => Some("Numpad1"),
        84 => Some("Numpad2"),
        85 => Some("Numpad3"),
        86 => Some("Numpad4"),
        87 => Some("Numpad5"),
        88 => Some("Numpad6"),
        89 => Some("Numpad7"),
        91 => Some("Numpad8"),
        92 => Some("Numpad9"),
        96 => Some("F5"),
        97 => Some("F6"),
        98 => Some("F7"),
        99 => Some("F3"),
        100 => Some("F8"),
        101 => Some("F9"),
        103 => Some("F11"),
        105 => Some("F13"),
        106 => Some("F16"),
        107 => Some("F14"),
        109 => Some("F10"),
        111 => Some("F12"),
        113 => Some("F15"),
        114 => Some("Insert"),
        115 => Some("Home"),
        116 => Some("PageUp"),
        117 => Some("Delete"),
        118 => Some("F4"),
        119 => Some("End"),
        120 => Some("F2"),
        121 => Some("PageDown"),
        122 => Some("F1"),
        123 => Some("ArrowLeft"),
        124 => Some("ArrowRight"),
        125 => Some("ArrowDown"),
        126 => Some("ArrowUp"),
        _ => None,
    }
}

/// Normalizes remap artifacts: a right-side Control report stands for the
/// left-side code.
pub fn normalize_macos_key_code(code: &str) -> (r: &str)
    ensures
        code@ == "ControlRight"@ ==> r@ == "ControlLeft"@,
        code@ != "ControlRight"@ ==> r@ == code@,
{
    if str_eq(code, "ControlRight") {
        "ControlLeft"
    } else {
        code
    }
}

/// An owned copy of a code; every caller gets the same text for the same
/// code.
pub fn intern(code: &str) -> (r: String)
    ensures
        r@ == code@,
{
    copy_str(code)
}

/// The mapped, normalized, owned canonical code of a platform virtual
/// keycode.
pub fn from_macos_virtual_keycode_arc(keycode: u16) -> (r: Option<String>)
    ensures
        match spec_macos_keycode(keycode) {
            Some(raw) => r is Some && (raw@ == "ControlRight"@ ==> r->0@ == "ControlLeft"@) && (
            raw@ != "ControlRight"@ ==> r->0@ == raw@),
            None => r is None,
        },
{
    let raw = match from_macos_virtual_keycode(keycode) {
        Some(raw) => raw,
        None => {
            return None;
        },
    };
    let normalized = normalize_macos_key_code(raw);
    Some(intern(normalized))
}


/// The canonical code of a cross-platform hook key, looked up by the key's
/// name as the hook reports it, or `None` for an unrecognized name.
pub open spec fn spec_rdev_code(name: Seq<char>) -> Option<&'static str> {
    if name == "Alt"@ {
        Some("AltLeft")
    } else if name == "AltGr"@ {
        Some("AltRight")
    } else if name == "Backspace"@ {
        Some("Backspace")
    } else if name == "CapsLock"@ {
        Some("CapsLock")
    } else if name == "Comma"@ {
        Some("Comma")
    } else if name == "ControlLeft"@ {
        Some("ControlLeft")
    } else if name == "ControlRight"@ {
        Some("ControlRight")
    } else if name == "Delete"@ {
        Some("Delete")
    } else if name == "Dot"@ {
        Some("Period")
    } else if name == "DownArrow"@ {
        Some("ArrowDown")
    } else if name == "End"@ {
        Some("End")
    } else if name == "Equal"@ {
        Some("Equal")
    } else if name == "Escape"@ {
        Some("Escape")
    } else if name == "F1"@ {
        Some("F1")
    } else if name == "F2"@ {
        Some("F2")
    } else if name == "F3"@ {
        Some("F3")
    } else if name == "F4"@ {
        Some("F4")
    } else if name == "F5"@ {
        Some("F5")
    } else if name == "F6"@ {
        Some("F6")
    } else if name == "F7"@ {
        Some("F7")
    } else if name == "F8"@ {
        Some("F8")
    } else if name == "F9"@ {
        Some("F9")
    } else if name == "F10"@ {
        Some("F10")
    } else if name == "F11"@ {
        Some("F11")
    } else if name == "F12"@ {
        Some("F12")
    } else if name == "Function"@ {
        Some("Fn")
    } else if name == "Home"@ {
        Some("Home")
    } else if name == "Insert"@ {
        Some("Insert")
    } else if name == "IntlBackslash"@ {
        Some("Backslash")
    } else if name == "KeyA"@ {
        Some("KeyA")
    } else if name == "KeyB"@ {
        Some("KeyB")
    } else if name == "KeyC"@ {
        Some("KeyC")
    } else if name == "KeyD"@ {
        Some("KeyD")
    } else if name == "KeyE"@ {
        Some("KeyE")
    } else if name == "KeyF"@ {
        Some("KeyF")
    } else if name == "KeyG"@ {
        Some("KeyG")
    } else if name == "KeyH"@ {
        Some("KeyH")
    } else if name == "KeyI"@ {
        Some("KeyI")
    } else if name == "KeyJ"@ {
        Some("KeyJ")
    } else if name == "KeyK"@ {
        Some("KeyK")
    } else if name == "KeyL"@ {
        Some("KeyL")
    } else if name == "KeyM"@ {
        Some("KeyM")
    } else if name == "KeyN"@ {
        Some("KeyN")
    } else if name == "KeyO"@ {
        Some("KeyO")
    } else if name == "KeyP"@ {
        Some("KeyP")
    } else if name == "KeyQ"@ {
        Some("KeyQ")
    } else if name == "KeyR"@ {
        Some("KeyR")
    } else if name == "KeyS"@ {
        Some("KeyS")
    } else if name == "KeyT"@ {
        Some("KeyT")
    } else if name == "KeyU"@ {
        Some("KeyU")
    } else if name == "KeyV"@ {
        Some("KeyV")
    } else if name == "KeyW"@ {
        Some("KeyW")
    } else if name == "KeyX"@ {
        Some("KeyX")
    } else if name == "KeyY"@ {
        Some("KeyY")
    } else if name == "KeyZ"@ {
        Some("KeyZ")
    } else if name == "Kp0"@ {
        Some("Numpad0")
    } else if name == "Kp1"@ {
        Some("Numpad1")
    } else if name == "Kp2"@ {
        Some("Numpad2")
    } else if name == "Kp3"@ {
        Some("Numpad3")
    } else if name == "Kp4"@ {
        Some("Numpad4")
    } else if name == "Kp5"@ {
        Some("Numpad5")
    } else if name == "Kp6"@ {
        Some("Numpad6")
    } else if name == "Kp7"@ {
        Some("Numpad7")
    } else if name == "Kp8"@ {
        Some("Numpad8")
    } else if name == "Kp9"@ {
        Some("Numpad9")
    } else if name == "KpDelete"@ {
        Some("NumpadDecimal")
    } else if name == "KpDivide"@ {
        Some("NumpadDivide")
    } else if name == "KpMinus"@ {
        Some("NumpadSubtract")
    } else if name == "KpMultiply"@ {
        Some("NumpadMultiply")
    } else if name == "KpPlus"@ {
        Some("NumpadAdd")
    } else if name == "KpReturn"@ {
        Some("Enter")
    } else if name == "Return"@ {
        Some("Enter")
    } else if name == "LeftArrow"@ {
        Some("ArrowLeft")
    } else if name == "LeftBracket"@ {
        Some("BracketLeft")
    } else if name == "MetaLeft"@ {
        Some("MetaLeft")
    } else if name == "MetaRight"@ {
        Some("MetaRight")
    } else if name == "Minus"@ {
        Some("Minus")
    } else if name == "Num0"@ {
        Some("Digit0")
    } else if name == "Num1"@ {
        Some("Digit1")
    } else if name == "Num2"@ {
        Some("Digit2")
    } else if name == "Num3"@ {
        Some("Digit3")
    } else if name == "Num4"@ {
        Some("Digit4")
    } else if name == "Num5"@ {
        Some("Digit5")
    } else if name == "Num6"@ {
        Some("Digit6")
    } else if name == "Num7"@ {
        Some("Digit7")
    } else if name == "Num8"@ {
        Some("Digit8")
    } else if name == "Num9"@ {
        Some("Digit9")
    } else if name == "NumLock"@ {
        Some("NumLock")
    } else if name == "PageDown"@ {
        Some("PageDown")
    } else if name == "PageUp"@ {
        Some("PageUp")
    } else if name == "Pause"@ {
        Some("Pause")
    } else if name == "PrintScreen"@ {
        Some("PrintScreen")
    } else if name == "Quote"@ {
        Some("Quote")
    } else if name == "RightArrow"@ {
        Some("ArrowRight")
    } else if name == "RightBracket"@ {
        Some("BracketRight")
    } else if name == "ScrollLock"@ {
        Some("ScrollLock")
    } else if name == "SemiColon"@ {
        Some("Semicolon")
    } else if name == "ShiftLeft"@ {
        Some("ShiftLeft")
    } else if name == "ShiftRight"@ {
        Some("ShiftRight")
    } else if name == "Slash"@ {
        Some("Slash")
    } else if name == "Space"@ {
        Some("Space")
    } else if name == "Tab"@ {
        Some("Tab")
    } else if name == "UpArrow"@ {
        Some("ArrowUp")
    } else if name == "BackQuote"@ {
        Some("Backquote")
    } else if name == "BackSlash"@ {
        Some("Backslash")
    } else {
        None
    }
}

/// The canonical code of a cross-platform hook key, by its reported name.
pub fn from_rdev_key_name(name: &str) -> (r: Option<&'static str>)
    ensures
        r == spec_rdev_code(name@),
{
    if str_eq(name, "Alt") {
        return Some("AltLeft");
    }
    if str_eq(name, "AltGr") {
        return Some("AltRight");
    }
    if str_eq(name, "Backspace") {
        return Some("Backspace");
    }
    if str_eq(name, "CapsLock") {
        return Some("CapsLock");
    }
    if str_eq(name, "Comma") {
        return Some("Comma");
    }
    if str_eq(name, "ControlLeft") {
        return Some("ControlLeft");
    }
    if str_eq(name, "ControlRight") {
        return Some("ControlRight");
    }
    if str_eq(name, "Delete") {
        return Some("Delete");
    }
    if str_eq(name, "Dot") {
        return Some("Period");
    }
    if str_eq(name, "DownArrow") {
        return Some("ArrowDown");
    }
    if str_eq(name, "End") {
        return Some("End");
    }
    if str_eq(name, "Equal") {
        return Some("Equal");
    }
    if str_eq(name, "Escape") {
        return Some("Escape");
    }
    if str_eq(name, "F1") {
        return Some("F1");
    }
    if str_eq(name, "F2") {
        return Some("F2");
    }
    if str_eq(name, "F3") {
        return Some("F3");
    }
    if str_eq(name, "F4") {
        return Some("F4");
    }
    if str_eq(name, "F5") {
        return Some("F5");
    }
    if str_eq(name, "F6") {
        return Some("F6");
    }
    if str_eq(name, "F7") {
        return Some("F7");
    }
    if str_eq(name, "F8") {
        return Some("F8");
    }
    if str_eq(name, "F9") {
        return Some("F9");
    }
    if str_eq(name, "F10") {
        return Some("F10");
    }
    if str_eq(name, "F11") {
        return Some("F11");
    }
    if str_eq(name, "F12") {
        return Some("F12");
    }
    if str_eq(name, "Function") {
        return Some("Fn");
    }
    if str_eq(name, "Home") {
        return Some("Home");
    }
    if str_eq(name, "Insert") {
        return Some("Insert");
    }
    if str_eq(name, "IntlBackslash") {
        return Some("Backslash");
    }
    if str_eq(name, "KeyA") {
        return Some("KeyA");
    }
    if str_eq(name, "KeyB") {
        return Some("KeyB");
    }
    if str_eq(name, "KeyC") {
        return Some("KeyC");
    }
    if str_eq(name, "KeyD") {
        return Some("KeyD");
    }
    if str_eq(name, "KeyE") {
        return Some("KeyE");
    }
    if str_eq(name, "KeyF") {
        return Some("KeyF");
    }
    if str_eq(name, "KeyG") {
        return Some("KeyG");
    }
    if str_eq(name, "KeyH") {
        return Some("KeyH");
    }
    if str_eq(name, "KeyI") {
        return Some("KeyI");
    }
    if str_eq(name, "KeyJ") {
        return Some("KeyJ");
    }
    if str_eq(name, "KeyK") {
        return Some("KeyK");
    }
    if str_eq(name, "KeyL") {
        return Some("KeyL");
    }
    if str_eq(name, "KeyM") {
        return Some("KeyM");
    }
    if str_eq(name, "KeyN") {
        return Some("KeyN");
    }
    if str_eq(name, "KeyO") {
        return Some("KeyO");
    }
    if str_eq(name, "KeyP") {
        return Some("KeyP");
    }
    if str_eq(name, "KeyQ") {
        return Some("KeyQ");
    }
    if str_eq(name, "KeyR") {
        return Some("KeyR");
    }
    if str_eq(name, "KeyS") {
        return Some("KeyS");
    }
    if str_eq(name, "KeyT") {
        return Some("KeyT");
    }
    if str_eq(name, "KeyU") {
        return Some("KeyU");
    }
    if str_eq(name, "KeyV") {
        return Some("KeyV");
    }
    if str_eq(name, "KeyW") {
        return Some("KeyW");
    }
    if str_eq(name, "KeyX") {
        return Some("KeyX");
    }
    if str_eq(name, "KeyY") {
        return Some("KeyY");
    }
    if str_eq(name, "KeyZ") {
        return Some("KeyZ");
    }
    if str_eq(name, "Kp0") {
        return Some("Numpad0");
    }
    if str_eq(name, "Kp1") {
        return Some("Numpad1");
    }
    if str_eq(name, "Kp2") {
        return Some("Numpad2");
    }
    if str_eq(name, "Kp3") {
        return Some("Numpad3");
    }
    if str_eq(name, "Kp4") {
        return Some("Numpad4");
    }
    if str_eq(name, "Kp5") {
        return Some("Numpad5");
    }
    if str_eq(name, "Kp6") {
        return Some("Numpad6");
    }
    if str_eq(name, "Kp7") {
        return Some("Numpad7");
    }
    if str_eq(name, "Kp8") {
        return Some("Numpad8");
    }
    if str_eq(name, "Kp9") {
        return Some("Numpad9");
    }
    if str_eq(name, "KpDelete") {
        return Some("NumpadDecimal");
    }
    if str_eq(name, "KpDivide") {
        return Some("NumpadDivide");
    }
    if str_eq(name, "KpMinus") {
        return Some("NumpadSubtract");
    }
    if str_eq(name, "KpMultiply") {
        return Some("NumpadMultiply");
    }
    if str_eq(name, "KpPlus") {
        return Some("NumpadAdd");
    }
    if str_eq(name, "KpReturn") {
        return Some("Enter");
    }
    if str_eq(name, "Return") {
        return Some("Enter");
    }
    if str_eq(name, "LeftArrow") {
        return Some("ArrowLeft");
    }
    if str_eq(name, "LeftBracket") {
        return Some("BracketLeft");
    }
    if str_eq(name, "MetaLeft") {
        return Some("MetaLeft");
    }
    if str_eq(name, "MetaRight") {
        return Some("MetaRight");
    }
    if str_eq(name, "Minus") {
        return Some("Minus");
    }
    if str_eq(name, "Num0") {
        return Some("Digit0");
    }
    if str_eq(name, "Num1") {
        return Some("Digit1");
    }
    if str_eq(name, "Num2") {
        return Some("Digit2");
    }
    if str_eq(name, "Num3") {
        return Some("Digit3");
    }
    if str_eq(name, "Num4") {
        return Some("Digit4");
    }
    if str_eq(name, "Num5") {
        return Some("Digit5");
    }
    if str_eq(name, "Num6") {
        return Some("Digit6");
    }
    if str_eq(name, "Num7") {
        return Some("Digit7");
    }
    if str_eq(name, "Num8") {
        return Some("Digit8");
    }
    if str_eq(name, "Num9") {
        return Some("Digit9");
    }
    if str_eq(name, "NumLock") {
        return Some("NumLock");
    }
    if str_eq(name, "PageDown") {
        return Some("PageDown");
    }
    if str_eq(name, "PageUp") {
        return Some("PageUp");
    }
    if str_eq(name, "Pause") {
        return Some("Pause");
    }
    if str_eq(name, "PrintScreen") {
        return Some("PrintScreen");
    }
    if str_eq(name, "Quote") {
        return Some("Quote");
    }
    if str_eq(name, "RightArrow") {
        return Some("ArrowRight");
    }
    if str_eq(name, "RightBracket") {
        return Some("BracketRight");
    }
    if str_eq(name, "ScrollLock") {
        return Some("ScrollLock");
    }
    if str_eq(name, "SemiColon") {
        return Some("Semicolon");
    }
    if str_eq(name, "ShiftLeft") {
        return Some("ShiftLeft");
    }
    if str_eq(name, "ShiftRight") {
        return Some("ShiftRight");
    }
    if str_eq(name, "Slash") {
        return Some("Slash");
    }
    if str_eq(name, "Space") {
        return Some("Space");
    }
    if str_eq(name, "Tab") {
        return Some("Tab");
    }
    if str_eq(name, "UpArrow") {
        return Some("ArrowUp");
    }
    if str_eq(name, "BackQuote") {
        return Some("Backquote");
    }
    if str_eq(name, "BackSlash") {
        return Some("Backslash");
    }
    None
}

} // verus!
