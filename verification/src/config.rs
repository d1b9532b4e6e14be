use vstd::prelude::*;
use crate::controllers::ControllerButton;
use crate::text::str_eq;

verus! {
/// The keyboard keys that can be mapped to pad buttons.
#[derive(Debug, Clone, Copy, PartialEq, Eq, Structural, Hash)]
pub enum KeyCode {
    KeyA,
    KeyB,
    KeyC,
    KeyD,
    KeyE,
    KeyF,
    KeyG,
    KeyH,
    KeyI,
    KeyJ,
    KeyK,
    KeyL,
    KeyM,
    KeyN,
    KeyO,
    KeyP,
    KeyQ,
    KeyR,
    KeyS,
    KeyT,
    KeyU,
    KeyV,
    KeyW,
    KeyX,
    KeyY,
    KeyZ,
    Digit0,
    Digit1,
    Digit2,
    Digit3,
    Digit4,
    Digit5,
    Digit6,
    Digit7,
    Digit8,
    Digit9,
    ArrowUp,
    ArrowDown,
    ArrowLeft,
    ArrowRight,
    Enter,
    Space,
    Escape,
    Tab,
    Backspace,
    ShiftLeft,
    ShiftRight,
    ControlLeft,
    ControlRight,
    AltLeft,
    AltRight,
    F1,
    F2,
    F3,
    F4,
    F5,
    F6,
    F7,
    F8,
    F9,
    F10,
    F11,
    F12,
}
/// The key a name stands for (`KeyA` or `A`, `Digit0` or `0`, `ArrowUp` or `Up`, ...).
pub open spec fn key_of_name(s: Seq<char>) -> Option<KeyCode> {
    if s == "KeyA"@ || s == "A"@ {
        Some(KeyCode::KeyA)
    } else if s == "KeyB"@ || s == "B"@ {
        Some(KeyCode::KeyB)
    } else if s == "KeyC"@ || s == "C"@ {
        Some(KeyCode::KeyC)
    } else if s == "KeyD"@ || s == "D"@ {
        Some(KeyCode::KeyD)
    } else if s == "KeyE"@ || s == "E"@ {
        Some(KeyCode::KeyE)
    } else if s == "KeyF"@ || s == "F"@ {
        Some(KeyCode::KeyF)
    } else if s == "KeyG"@ || s == "G"@ {
        Some(KeyCode::KeyG)
    } else if s == "KeyH"@ || s == "H"@ {
        Some(KeyCode::KeyH)
    } else if s == "KeyI"@ || s == "I"@ {
        Some(KeyCode::KeyI)
    } else if s == "KeyJ"@ || s == "J"@ {
        Some(KeyCode::KeyJ)
    } else if s == "KeyK"@ || s == "K"@ {
        Some(KeyCode::KeyK)
    } else if s == "KeyL"@ || s == "L"@ {
        Some(KeyCode::KeyL)
    } else if s == "KeyM"@ || s == "M"@ {
        Some(KeyCode::KeyM)
    } else if s == "KeyN"@ || s == "N"@ {
        Some(KeyCode::KeyN)
    } else if s == "KeyO"@ || s == "O"@ {
        Some(KeyCode::KeyO)
    } else if s == "KeyP"@ || s == "P"@ {
        Some(KeyCode::KeyP)
    } else if s == "KeyQ"@ || s == "Q"@ {
        Some(KeyCode::KeyQ)
    } else if s == "KeyR"@ || s == "R"@ {
        Some(KeyCode::KeyR)
    } else if s == "KeyS"@ || s == "S"@ {
        Some(KeyCode::KeyS)
    } else if s == "KeyT"@ || s == "T"@ {
        Some(KeyCode::KeyT)
    } else if s == "KeyU"@ || s == "U"@ {
        Some(KeyCode::KeyU)
    } else if s == "KeyV"@ || s == "V"@ {
        Some(KeyCode::KeyV)
    } else if s == "KeyW"@ || s == "W"@ {
        Some(KeyCode::KeyW)
    } else if s == "KeyX"@ || s == "X"@ {
        Some(KeyCode::KeyX)
    } else if s == "KeyY"@ || s == "Y"@ {
        Some(KeyCode::KeyY)
    } else if s == "KeyZ"@ || s == "Z"@ {
        Some(KeyCode::KeyZ)
    } else if s == "Digit0"@ || s == "0"@ {
        Some(KeyCode::Digit0)
    } else if s == "Digit1"@ || s == "1"@ {
        Some(KeyCode::Digit1)
    } else if s == "Digit2"@ || s == "2"@ {
        Some(KeyCode::Digit2)
    } else if s == "Digit3"@ || s == "3"@ {
        Some(KeyCode::Digit3)
    } else if s == "Digit4"@ || s == "4"@ {
        Some(KeyCode::Digit4)
    } else if s == "Digit5"@ || s == "5"@ {
        Some(KeyCode::Digit5)
    } else if s == "Digit6"@ || s == "6"@ {
        Some(KeyCode::Digit6)
    } else if s == "Digit7"@ || s == "7"@ {
        Some(KeyCode::Digit7)
    } else if s == "Digit8"@ || s == "8"@ {
        Some(KeyCode::Digit8)
    } else if s == "Digit9"@ || s == "9"@ {
        Some(KeyCode::Digit9)
    } else if s == "ArrowUp"@ || s == "Up"@ {
        Some(KeyCode::ArrowUp)
    } else if s == "ArrowDown"@ || s == "Down"@ {
        Some(KeyCode::ArrowDown)
    } else if s == "ArrowLeft"@ || s == "Left"@ {
        Some(KeyCode::ArrowLeft)
    } else if s == "ArrowRight"@ || s == "Right"@ {
        Some(KeyCode::ArrowRight)
    } else if s == "Enter"@ || s == "Return"@ {
        Some(KeyCode::Enter)
    } else if s == "Space"@ {
        Some(KeyCode::Space)
    } else if s == "Escape"@ || s == "Esc"@ {
        Some(KeyCode::Escape)
    } else if s == "Tab"@ {
        Some(KeyCode::Tab)
    } else if s == "Backspace"@ {
        Some(KeyCode::Backspace)
    } else if s == "ShiftLeft"@ || s == "LShift"@ {
        Some(KeyCode::ShiftLeft)
    } else if s == "ShiftRight"@ || s == "RShift"@ {
        Some(KeyCode::ShiftRight)
    } else if s == "ControlLeft"@ || s == "LCtrl"@ || s == "Ctrl"@ {
        Some(KeyCode::ControlLeft)
    } else if s == "ControlRight"@ || s == "RCtrl"@ {
        Some(KeyCode::ControlRight)
    } else if s == "AltLeft"@ || s == "LAlt"@ || s == "Alt"@ {
        Some(KeyCode::AltLeft)
    } else if s == "AltRight"@ || s == "RAlt"@ {
        Some(KeyCode::AltRight)
    } else if s == "F1"@ {
        Some(KeyCode::F1)
    } else if s == "F2"@ {
        Some(KeyCode::F2)
    } else if s == "F3"@ {
        Some(KeyCode::F3)
    } else if s == "F4"@ {
        Some(KeyCode::F4)
    } else if s == "F5"@ {
        Some(KeyCode::F5)
    } else if s == "F6"@ {
        Some(KeyCode::F6)
    } else if s == "F7"@ {
        Some(KeyCode::F7)
    } else if s == "F8"@ {
        Some(KeyCode::F8)
    } else if s == "F9"@ {
        Some(KeyCode::F9)
    } else if s == "F10"@ {
        Some(KeyCode::F10)
    } else if s == "F11"@ {
        Some(KeyCode::F11)
    } else if s == "F12"@ {
        Some(KeyCode::F12)
    } else {
        None
    }
}

/// The key of a key name, if it is one.
pub fn parse_keycode(s: &str) -> (r: Option<KeyCode>)
    ensures
        r == key_of_name(s@),
{
    if str_eq(s, "KeyA") || str_eq(s, "A") {
        return Some(KeyCode::KeyA);
    }
    if str_eq(s, "KeyB") || str_eq(s, "B") {
        return Some(KeyCode::KeyB);
    }
    if str_eq(s, "KeyC") || str_eq(s, "C") {
        return Some(KeyCode::KeyC);
    }
    if str_eq(s, "KeyD") || str_eq(s, "D") {
        return Some(KeyCode::KeyD);
    }
    if str_eq(s, "KeyE") || str_eq(s, "E") {
        return Some(KeyCode::KeyE);
    }
    if str_eq(s, "KeyF") || str_eq(s, "F") {
        return Some(KeyCode::KeyF);
    }
    if str_eq(s, "KeyG") || str_eq(s, "G") {
        return Some(KeyCode::KeyG);
    }
    if str_eq(s, "KeyH") || str_eq(s, "H") {
        return Some(KeyCode::KeyH);
    }
    if str_eq(s, "KeyI") || str_eq(s, "I") {
        return Some(KeyCode::KeyI);
    }
    if str_eq(s, "KeyJ") || str_eq(s, "J") {
        return Some(KeyCode::KeyJ);
    }
    if str_eq(s, "KeyK") || str_eq(s, "K") {
        return Some(KeyCode::KeyK);
    }
    if str_eq(s, "KeyL") || str_eq(s, "L") {
        return Some(KeyCode::KeyL);
    }
    if str_eq(s, "KeyM") || str_eq(s, "M") {
        return Some(KeyCode::KeyM);
    }
    if str_eq(s, "KeyN") || str_eq(s, "N") {
        return Some(KeyCode::KeyN);
    }
    if str_eq(s, "KeyO") || str_eq(s, "O") {
        return Some(KeyCode::KeyO);
    }
    if str_eq(s, "KeyP") || str_eq(s, "P") {
        return Some(KeyCode::KeyP);
    }
    if str_eq(s, "KeyQ") || str_eq(s, "Q") {
        return Some(KeyCode::KeyQ);
    }
    if str_eq(s, "KeyR") || str_eq(s, "R") {
        return Some(KeyCode::KeyR);
    }
    if str_eq(s, "KeyS") || str_eq(s, "S") {
        return Some(KeyCode::KeyS);
    }
    if str_eq(s, "KeyT") || str_eq(s, "T") {
        return Some(KeyCode::KeyT);
    }
    if str_eq(s, "KeyU") || str_eq(s, "U") {
        return Some(KeyCode::KeyU);
    }
    if str_eq(s, "KeyV") || str_eq(s, "V") {
        return Some(KeyCode::KeyV);
    }
    if str_eq(s, "KeyW") || str_eq(s, "W") {
        return Some(KeyCode::KeyW);
    }
    if str_eq(s, "KeyX") || str_eq(s, "X") {
        return Some(KeyCode::KeyX);
    }
    if str_eq(s, "KeyY") || str_eq(s, "Y") {
        return Some(KeyCode::KeyY);
    }
    if str_eq(s, "KeyZ") || str_eq(s, "Z") {
        return Some(KeyCode::KeyZ);
    }
    if str_eq(s, "Digit0") || str_eq(s, "0") {
        return Some(KeyCode::Digit0);
    }
    if str_eq(s, "Digit1") || str_eq(s, "1") {
        return Some(KeyCode::Digit1);
    }
    if str_eq(s, "Digit2") || str_eq(s, "2") {
        return Some(KeyCode::Digit2);
    }
    if str_eq(s, "Digit3") || str_eq(s, "3") {
        return Some(KeyCode::Digit3);
    }
    if str_eq(s, "Digit4") || str_eq(s, "4") {
        return Some(KeyCode::Digit4);
    }
    if str_eq(s, "Digit5") || str_eq(s, "5") {
        return Some(KeyCode::Digit5);
    }
    if str_eq(s, "Digit6") || str_eq(s, "6") {
        return Some(KeyCode::Digit6);
    }
    if str_eq(s, "Digit7") || str_eq(s, "7") {
        return Some(KeyCode::Digit7);
    }
    if str_eq(s, "Digit8") || str_eq(s, "8") {
        return Some(KeyCode::Digit8);
    }
    if str_eq(s, "Digit9") || str_eq(s, "9") {
        return Some(KeyCode::Digit9);
    }
    if str_eq(s, "ArrowUp") || str_eq(s, "Up") {
        return Some(KeyCode::ArrowUp);
    }
    if str_eq(s, "ArrowDown") || str_eq(s, "Down") {
        return Some(KeyCode::ArrowDown);
    }
    if str_eq(s, "ArrowLeft") || str_eq(s, "Left") {
        return Some(KeyCode::ArrowLeft);
    }
    if str_eq(s, "ArrowRight") || str_eq(s, "Right") {
        return Some(KeyCode::ArrowRight);
    }
    if str_eq(s, "Enter") || str_eq(s, "Return") {
        return Some(KeyCode::Enter);
    }
    if str_eq(s, "Space") {
        return Some(KeyCode::Space);
    }
    if str_eq(s, "Escape") || str_eq(s, "Esc") {
        return Some(KeyCode::Escape);
    }
    if str_eq(s, "Tab") {
        return Some(KeyCode::Tab);
    }
    if str_eq(s, "Backspace") {
        return Some(KeyCode::Backspace);
    }
    if str_eq(s, "ShiftLeft") || str_eq(s, "LShift") {
        return Some(KeyCode::ShiftLeft);
    }
    if str_eq(s, "ShiftRight") || str_eq(s, "RShift") {
        return Some(KeyCode::ShiftRight);
    }
    if str_eq(s, "ControlLeft") || str_eq(s, "LCtrl") || str_eq(s, "Ctrl") {
        return Some(KeyCode::ControlLeft);
    }
    if str_eq(s, "ControlRight") || str_eq(s, "RCtrl") {
        return Some(KeyCode::ControlRight);
    }
    if str_eq(s, "AltLeft") || str_eq(s, "LAlt") || str_eq(s, "Alt") {
        return Some(KeyCode::AltLeft);
    }
    if str_eq(s, "AltRight") || str_eq(s, "RAlt") {
        return Some(KeyCode::AltRight);
    }
    if str_eq(s, "F1") {
        return Some(KeyCode::F1);
    }
    if str_eq(s, "F2") {
        return Some(KeyCode::F2);
    }
    if str_eq(s, "F3") {
        return Some(KeyCode::F3);
    }
    if str_eq(s, "F4") {
        return Some(KeyCode::F4);
    }
    if str_eq(s, "F5") {
        return Some(KeyCode::F5);
    }
    if str_eq(s, "F6") {
        return Some(KeyCode::F6);
    }
    if str_eq(s, "F7") {
        return Some(KeyCode::F7);
    }
    if str_eq(s, "F8") {
        return Some(KeyCode::F8);
    }
    if str_eq(s, "F9") {
        return Some(KeyCode::F9);
    }
    if str_eq(s, "F10") {
        return Some(KeyCode::F10);
    }
    if str_eq(s, "F11") {
        return Some(KeyCode::F11);
    }
    if str_eq(s, "F12") {
        return Some(KeyCode::F12);
    }
    None
}

/// The canonical name of a key.
pub open spec fn key_name(k: KeyCode) -> Seq<char> {
    match k {
        KeyCode::KeyA => "KeyA"@,
        KeyCode::KeyB => "KeyB"@,
        KeyCode::KeyC => "KeyC"@,
        KeyCode::KeyD => "KeyD"@,
        KeyCode::KeyE => "KeyE"@,
        KeyCode::KeyF => "KeyF"@,
        KeyCode::KeyG => "KeyG"@,
        KeyCode::KeyH => "KeyH"@,
        KeyCode::KeyI => "KeyI"@,
        KeyCode::KeyJ => "KeyJ"@,
        KeyCode::KeyK => "KeyK"@,
        KeyCode::KeyL => "KeyL"@,
        KeyCode::KeyM => "KeyM"@,
        KeyCode::KeyN => "KeyN"@,
        KeyCode::KeyO => "KeyO"@,
        KeyCode::KeyP => "KeyP"@,
        KeyCode::KeyQ => "KeyQ"@,
        KeyCode::KeyR => "KeyR"@,
        KeyCode::KeyS => "KeyS"@,
        KeyCode::KeyT => "KeyT"@,
        KeyCode::KeyU => "KeyU"@,
        KeyCode::KeyV => "KeyV"@,
        KeyCode::KeyW => "KeyW"@,
        KeyCode::KeyX => "KeyX"@,
        KeyCode::KeyY => "KeyY"@,
        KeyCode::KeyZ => "KeyZ"@,
        KeyCode::Digit0 => "Digit0"@,
        KeyCode::Digit1 => "Digit1"@,
        KeyCode::Digit2 => "Digit2"@,
        KeyCode::Digit3 => "Digit3"@,
        KeyCode::Digit4 => "Digit4"@,
        KeyCode::Digit5 => "Digit5"@,
        KeyCode::Digit6 => "Digit6"@,
        KeyCode::Digit7 => "Digit7"@,
        KeyCode::Digit8 => "Digit8"@,
        KeyCode::Digit9 => "Digit9"@,
        KeyCode::ArrowUp => "ArrowUp"@,
        KeyCode::ArrowDown => "ArrowDown"@,
        KeyCode::ArrowLeft => "ArrowLeft"@,
        KeyCode::ArrowRight => "ArrowRight"@,
        KeyCode::Enter => "Enter"@,
        KeyCode::Space => "Space"@,
        KeyCode::Escape => "Escape"@,
        KeyCode::Tab => "Tab"@,
        KeyCode::Backspace => "Backspace"@,
        KeyCode::ShiftLeft => "ShiftLeft"@,
        KeyCode::ShiftRight => "ShiftRight"@,
        KeyCode::ControlLeft => "ControlLeft"@,
        KeyCode::ControlRight => "ControlRight"@,
        KeyCode::AltLeft => "AltLeft"@,
        KeyCode::AltRight => "AltRight"@,
        KeyCode::F1 => "F1"@,
        KeyCode::F2 => "F2"@,
        KeyCode::F3 => "F3"@,
        KeyCode::F4 => "F4"@,
        KeyCode::F5 => "F5"@,
        KeyCode::F6 => "F6"@,
        KeyCode::F7 => "F7"@,
        KeyCode::F8 => "F8"@,
        KeyCode::F9 => "F9"@,
        KeyCode::F10 => "F10"@,
        KeyCode::F11 => "F11"@,
        KeyCode::F12 => "F12"@,
    }
}

/// The canonical name of a key (`KeyA`, `Digit0`, `ArrowUp`, `Enter`, `F1`, ...).
pub fn keycode_to_string(keycode: KeyCode) -> (r: String)
    ensures
        r@ == key_name(keycode),
{
    let s: &str = match keycode {
        KeyCode::KeyA => "KeyA",
        KeyCode::KeyB => "KeyB",
        KeyCode::KeyC => "KeyC",
        KeyCode::KeyD => "KeyD",
        KeyCode::KeyE => "KeyE",
        KeyCode::KeyF => "KeyF",
        KeyCode::KeyG => "KeyG",
        KeyCode::KeyH => "KeyH",
        KeyCode::KeyI => "KeyI",
        KeyCode::KeyJ => "KeyJ",
        KeyCode::KeyK => "KeyK",
        KeyCode::KeyL => "KeyL",
        KeyCode::KeyM => "KeyM",
        KeyCode::KeyN => "KeyN",
        KeyCode::KeyO => "KeyO",
        KeyCode::KeyP => "KeyP",
        KeyCode::KeyQ => "KeyQ",
        KeyCode::KeyR => "KeyR",
        KeyCode::KeyS => "KeyS",
        KeyCode::KeyT => "KeyT",
        KeyCode::KeyU => "KeyU",
        KeyCode::KeyV => "KeyV",
        KeyCode::KeyW => "KeyW",
        KeyCode::KeyX => "KeyX",
        KeyCode::KeyY => "KeyY",
        KeyCode::KeyZ => "KeyZ",
        KeyCode::Digit0 => "Digit0",
        KeyCode::Digit1 => "Digit1",
        KeyCode::Digit2 => "Digit2",
        KeyCode::Digit3 => "Digit3",
        KeyCode::Digit4 => "Digit4",
        KeyCode::Digit5 => "Digit5",
        KeyCode::Digit6 => "Digit6",
        KeyCode::Digit7 => "Digit7",
        KeyCode::Digit8 => "Digit8",
        KeyCode::Digit9 => "Digit9",
        KeyCode::ArrowUp => "ArrowUp",
        KeyCode::ArrowDown => "ArrowDown",
        KeyCode::ArrowLeft => "ArrowLeft",
        KeyCode::ArrowRight => "ArrowRight",
        KeyCode::Enter => "Enter",
        KeyCode::Space => "Space",
        KeyCode::Escape => "Escape",
        KeyCode::Tab => "Tab",
        KeyCode::Backspace => "Backspace",
        KeyCode::ShiftLeft => "ShiftLeft",
        KeyCode::ShiftRight => "ShiftRight",
        KeyCode::ControlLeft => "ControlLeft",
        KeyCode::ControlRight => "ControlRight",
        KeyCode::AltLeft => "AltLeft",
        KeyCode::AltRight => "AltRight",
        KeyCode::F1 => "F1",
        KeyCode::F2 => "F2",
        KeyCode::F3 => "F3",
        KeyCode::F4 => "F4",
        KeyCode::F5 => "F5",
        KeyCode::F6 => "F6",
        KeyCode::F7 => "F7",
        KeyCode::F8 => "F8",
        KeyCode::F9 => "F9",
        KeyCode::F10 => "F10",
        KeyCode::F11 => "F11",
        KeyCode::F12 => "F12",
    };
    let mut r = String::new();
    crate::text::append_str(&mut r, s);
    proof {
        assert(Seq::<char>::empty() + s@ == s@);
    }
    r
}

/// The keys of each pad button, by name.
#[derive(Debug, Clone)]
pub struct KeyMapping {
    pub cross: String,
    pub circle: String,
    pub square: String,
    pub triangle: String,
    pub l1: String,
    pub l2: String,
    pub r1: String,
    pub r2: String,
    pub l3: Option<String>,
    pub r3: Option<String>,
    pub start: String,
    pub select: String,
    pub dpad_up: String,
    pub dpad_down: String,
    pub dpad_left: String,
    pub dpad_right: String,
}

/// A string holding a literal.
fn owned(s: &str) -> (r: String)
    ensures
        r@ == s@,
{
    let mut r = String::new();
    crate::text::append_str(&mut r, s);
    proof {
        assert(Seq::<char>::empty() + s@ == s@);
    }
    r
}

impl KeyMapping {
    /// The keys of the first pad: X, Z, A, S for the face buttons, Q W E R for the shoulders,
    /// Enter and right Shift for start and select, the arrows for the pad.
    pub fn default_controller1() -> (r: Self)
        ensures
            r.cross@ == "KeyX"@ && r.circle@ == "KeyZ"@ && r.square@ == "KeyA"@ && r.triangle@ == "KeyS"@,
            r.l1@ == "KeyQ"@ && r.l2@ == "KeyW"@ && r.r1@ == "KeyE"@ && r.r2@ == "KeyR"@,
            r.l3 is None && r.r3 is None,
            r.start@ == "Enter"@ && r.select@ == "ShiftRight"@,
            r.dpad_up@ == "ArrowUp"@ && r.dpad_down@ == "ArrowDown"@ && r.dpad_left@ == "ArrowLeft"@ && r.dpad_right@ == "ArrowRight"@,
    {
        KeyMapping {
            cross: owned("KeyX"),
            circle: owned("KeyZ"),
            square: owned("KeyA"),
            triangle: owned("KeyS"),
            l1: owned("KeyQ"),
            l2: owned("KeyW"),
            r1: owned("KeyE"),
            r2: owned("KeyR"),
            l3: None,
            r3: None,
            start: owned("Enter"),
            select: owned("ShiftRight"),
            dpad_up: owned("ArrowUp"),
            dpad_down: owned("ArrowDown"),
            dpad_left: owned("ArrowLeft"),
            dpad_right: owned("ArrowRight"),
        }
    }

    /// The keys of the second pad: K, J, L, H for the face buttons, U I O P for the shoulders,
    /// 0 and 1 for start and select, Y H N M for the pad.
    pub fn default_controller2() -> (r: Self)
        ensures
            r.cross@ == "KeyK"@ && r.circle@ == "KeyJ"@ && r.square@ == "KeyL"@ && r.triangle@ == "KeyH"@,
            r.l1@ == "KeyU"@ && r.l2@ == "KeyI"@ && r.r1@ == "KeyO"@ && r.r2@ == "KeyP"@,
            r.l3 is None && r.r3 is None,
            r.start@ == "Digit0"@ && r.select@ == "Digit1"@,
            r.dpad_up@ == "KeyY"@ && r.dpad_down@ == "KeyH"@ && r.dpad_left@ == "KeyN"@ && r.dpad_right@ == "KeyM"@,
    {
        KeyMapping {
            cross: owned("KeyK"),
            circle: owned("KeyJ"),
            square: owned("KeyL"),
            triangle: owned("KeyH"),
            l1: owned("KeyU"),
            l2: owned("KeyI"),
            r1: owned("KeyO"),
            r2: owned("KeyP"),
            l3: None,
            r3: None,
            start: owned("Digit0"),
            select: owned("Digit1"),
            dpad_up: owned("KeyY"),
            dpad_down: owned("KeyH"),
            dpad_left: owned("KeyN"),
            dpad_right: owned("KeyM"),
        }
    }
}

/// The (key, button) entries a mapping gives, in the order they are made: a later entry for
/// the same key wins.
pub open spec fn opt_entry(name: Option<Seq<char>>, b: ControllerButton) -> Seq<(KeyCode, ControllerButton)> {
    match name {
        Some(n) => match key_of_name(n) {
            Some(k) => seq![(k, b)],
            None => Seq::empty(),
        },
        None => Seq::empty(),
    }
}

pub open spec fn entry(name: Seq<char>, b: ControllerButton) -> Seq<(KeyCode, ControllerButton)> {
    opt_entry(Some(name), b)
}

pub open spec fn opt_name(s: Option<String>) -> Option<Seq<char>> {
    match s {
        Some(x) => Some(x@),
        None => None,
    }
}

pub open spec fn mapping_entries(m: KeyMapping) -> Seq<(KeyCode, ControllerButton)> {
    entry(m.cross@, ControllerButton::Cross) + entry(m.circle@, ControllerButton::Circle)
        + entry(m.square@, ControllerButton::Square) + entry(m.triangle@, ControllerButton::Triangle)
        + entry(m.l1@, ControllerButton::L1) + entry(m.l2@, ControllerButton::L2)
        + entry(m.r1@, ControllerButton::R1) + entry(m.r2@, ControllerButton::R2)
        + opt_entry(opt_name(m.l3), ControllerButton::L3) + opt_entry(opt_name(m.r3), ControllerButton::R3)
        + entry(m.start@, ControllerButton::Start) + entry(m.select@, ControllerButton::Select)
        + entry(m.dpad_up@, ControllerButton::Up) + entry(m.dpad_down@, ControllerButton::Down)
        + entry(m.dpad_left@, ControllerButton::Left) + entry(m.dpad_right@, ControllerButton::Right)
}

/// The button of the last entry for `k`.
pub open spec fn lookup(s: Seq<(KeyCode, ControllerButton)>, k: KeyCode) -> Option<ControllerButton>
    decreases s.len(),
{
    if s.len() == 0 {
        None
    } else if s.last().0 == k {
        Some(s.last().1)
    } else {
        lookup(s.drop_last(), k)
    }
}

/// A key mapping and the key-to-button table it gives.
#[derive(Debug, Clone)]
pub struct ControllerKeyMapping {
    pub key_mapping: KeyMapping,
    pub key_map: Vec<(KeyCode, ControllerButton)>,
}

fn add_entry(v: &mut Vec<(KeyCode, ControllerButton)>, name: &String, b: ControllerButton)
    ensures
        final(v)@ == old(v)@ + entry(name@, b),
{
    match parse_keycode(name.as_str()) {
        Some(k) => {
            v.push((k, b));
            proof {
                assert(final(v)@ == old(v)@ + seq![(k, b)]);
            }
        },
        None => {
            proof {
                assert(old(v)@ + Seq::<(KeyCode, ControllerButton)>::empty() == old(v)@);
            }
        },
    }
}

fn add_opt_entry(v: &mut Vec<(KeyCode, ControllerButton)>, name: &Option<String>, b: ControllerButton)
    ensures
        final(v)@ == old(v)@ + opt_entry(opt_name(*name), b),
{
    match name {
        Some(n) => add_entry(v, n, b),
        None => {
            proof {
                assert(old(v)@ + Seq::<(KeyCode, ControllerButton)>::empty() == old(v)@);
            }
        },
    }
}

impl ControllerKeyMapping {
    /// The table of a mapping: each named key (that is a known key) goes to its button.
    pub fn from_config(config: KeyMapping) -> (r: Self)
        ensures
            r.key_map@ == mapping_entries(config),
            r.key_mapping == config,
    {
        let mut v: Vec<(KeyCode, ControllerButton)> = Vec::new();
        add_entry(&mut v, &config.cross, ControllerButton::Cross);
        add_entry(&mut v, &config.circle, ControllerButton::Circle);
        add_entry(&mut v, &config.square, ControllerButton::Square);
        add_entry(&mut v, &config.triangle, ControllerButton::Triangle);
        add_entry(&mut v, &config.l1, ControllerButton::L1);
        add_entry(&mut v, &config.l2, ControllerButton::L2);
        add_entry(&mut v, &config.r1, ControllerButton::R1);
        add_entry(&mut v, &config.r2, ControllerButton::R2);
        add_opt_entry(&mut v, &config.l3, ControllerButton::L3);
        add_opt_entry(&mut v, &config.r3, ControllerButton::R3);
        add_entry(&mut v, &config.start, ControllerButton::Start);
        add_entry(&mut v, &config.select, ControllerButton::Select);
        add_entry(&mut v, &config.dpad_up, ControllerButton::Up);
        add_entry(&mut v, &config.dpad_down, ControllerButton::Down);
        add_entry(&mut v, &config.dpad_left, ControllerButton::Left);
        add_entry(&mut v, &config.dpad_right, ControllerButton::Right);
        proof {
            assert(v@ == Seq::<(KeyCode, ControllerButton)>::empty() + mapping_entries(config));
        }
        ControllerKeyMapping { key_mapping: config, key_map: v }
    }

    pub fn default_controller_1() -> (r: Self)
        ensures
            r.key_map@ == mapping_entries(r.key_mapping),
            r.key_mapping.cross@ == "KeyX"@ && r.key_mapping.start@ == "Enter"@,
    {
        Self::from_config(KeyMapping::default_controller1())
    }

    pub fn default_controller_2() -> (r: Self)
        ensures
            r.key_map@ == mapping_entries(r.key_mapping),
            r.key_mapping.cross@ == "KeyK"@ && r.key_mapping.start@ == "Digit0"@,
    {
        Self::from_config(KeyMapping::default_controller2())
    }

    /// The button a key is mapped to (the last mapping of the key wins).
    pub fn map_key(&self, key: KeyCode) -> (r: Option<ControllerButton>)
        ensures
            r == lookup(self.key_map@, key),
    {
        let mut i = self.key_map.len();
        proof {
            assert(self.key_map@.take(i as int) == self.key_map@);
        }
        while i > 0
            invariant
                i <= self.key_map@.len(),
                lookup(self.key_map@, key) == lookup(self.key_map@.take(i as int), key),
            decreases i,
        {
            proof {
                assert(self.key_map@.take(i as int).drop_last() == self.key_map@.take(i as int - 1));
            }
            if self.key_map[i - 1].0 == key {
                return Some(self.key_map[i - 1].1);
            }
            i = i - 1;
        }
        None
    }
}

/// Which region the emulated console is.
#[derive(Debug, Clone, Copy, PartialEq, Eq, Structural)]
pub enum RegionPolicyConfig {
    Auto,
    Usa,
    Japan,
    Europe,
}

impl Default for RegionPolicyConfig {
    fn default() -> (r: Self)
        ensures r == RegionPolicyConfig::Auto,
    {
        RegionPolicyConfig::Auto
    }
}

#[derive(Debug, Clone)]
pub struct AudioConfig {
    pub buffer_capacity_in_millis: usize,
}

impl Default for AudioConfig {
    fn default() -> (r: Self)
        ensures r.buffer_capacity_in_millis == 10,
    {
        AudioConfig { buffer_capacity_in_millis: 10 }
    }
}

#[derive(Debug, Clone)]
pub struct MemoryConfig {
    pub cpu_write_queue_enabled: bool,
}

impl Default for MemoryConfig {
    fn default() -> (r: Self)
        ensures !r.cpu_write_queue_enabled,
    {
        MemoryConfig { cpu_write_queue_enabled: false }
    }
}

/// Logging: an optional file and the severity name.
#[derive(Debug, Clone)]
pub struct LogConfig {
    pub log_file: Option<String>,
    pub log_severity: String,
}

impl Default for LogConfig {
    fn default() -> (r: Self)
        ensures r.log_file is None && r.log_severity@ == "info"@,
    {
        LogConfig { log_file: None, log_severity: owned("info") }
    }
}

#[derive(Debug, Clone)]
pub struct GPUConfig {
    pub command_delay_enabled: bool,
    pub rendering_type: Option<String>,
}

impl Default for GPUConfig {
    fn default() -> (r: Self)
        ensures !r.command_delay_enabled && r.rendering_type is None,
    {
        GPUConfig { command_delay_enabled: false, rendering_type: None }
    }
}

#[derive(Debug, Clone)]
pub struct CdromConfig {
    pub show_cdrom_access: bool,
}

impl Default for CdromConfig {
    fn default() -> (r: Self)
        ensures !r.show_cdrom_access,
    {
        CdromConfig { show_cdrom_access: false }
    }
}

#[derive(Debug, Clone)]
pub struct CheatsConfig {
    pub cheats_enabled: bool,
    pub cheats_codes: Vec<String>,
}

impl Default for CheatsConfig {
    fn default() -> (r: Self)
        ensures !r.cheats_enabled && r.cheats_codes@.len() == 0,
    {
        CheatsConfig { cheats_enabled: false, cheats_codes: Vec::new() }
    }
}

/// One pad port's settings.
#[derive(Debug, Clone)]
pub struct ControllerConfig {
    pub controller_enabled: bool,
    pub controller_keymap: ControllerKeyMapping,
    pub memory_card_path: Option<String>,
    pub attach_to_usb: bool,
}

/// Reading a key's canonical name gives the key back.
pub proof fn lemma_key_name_round_trip(k: KeyCode)
    ensures
        key_of_name(key_name(k)) == Some(k),
{
    reveal_strlit("KeyA");
    assert("KeyA"@ =~= seq!['K', 'e', 'y', 'A']);
    reveal_strlit("A");
    assert("A"@ =~= seq!['A']);
    reveal_strlit("KeyB");
    assert("KeyB"@ =~= seq!['K', 'e', 'y', 'B']);
    reveal_strlit("B");
    assert("B"@ =~= seq!['B']);
    reveal_strlit("KeyC");
    assert("KeyC"@ =~= seq!['K', 'e', 'y', 'C']);
    reveal_strlit("C");
    assert("C"@ =~= seq!['C']);
    reveal_strlit("KeyD");
    assert("KeyD"@ =~= seq!['K', 'e', 'y', 'D']);
    reveal_strlit("D");
    assert("D"@ =~= seq!['D']);
    reveal_strlit("KeyE");
    assert("KeyE"@ =~= seq!['K', 'e', 'y', 'E']);
    reveal_strlit("E");
    assert("E"@ =~= seq!['E']);
    reveal_strlit("KeyF");
    assert("KeyF"@ =~= seq!['K', 'e', 'y', 'F']);
    reveal_strlit("F");
    assert("F"@ =~= seq!['F']);
    reveal_strlit("KeyG");
    assert("KeyG"@ =~= seq!['K', 'e', 'y', 'G']);
    reveal_strlit("G");
    assert("G"@ =~= seq!['G']);
    reveal_strlit("KeyH");
    assert("KeyH"@ =~= seq!['K', 'e', 'y', 'H']);
    reveal_strlit("H");
    assert("H"@ =~= seq!['H']);
    reveal_strlit("KeyI");
    assert("KeyI"@ =~= seq!['K', 'e', 'y', 'I']);
    reveal_strlit("I");
    assert("I"@ =~= seq!['I']);
    reveal_strlit("KeyJ");
    assert("KeyJ"@ =~= seq!['K', 'e', 'y', 'J']);
    reveal_strlit("J");
    assert("J"@ =~= seq!['J']);
    reveal_strlit("KeyK");
    assert("KeyK"@ =~= seq!['K', 'e', 'y', 'K']);
    reveal_strlit("K");
    assert("K"@ =~= seq!['K']);
    reveal_strlit("KeyL");
    assert("KeyL"@ =~= seq!['K', 'e', 'y', 'L']);
    reveal_strlit("L");
    assert("L"@ =~= seq!['L']);
    reveal_strlit("KeyM");
    assert("KeyM"@ =~= seq!['K', 'e', 'y', 'M']);
    reveal_strlit("M");
    assert("M"@ =~= seq!['M']);
    reveal_strlit("KeyN");
    assert("KeyN"@ =~= seq!['K', 'e', 'y', 'N']);
    reveal_strlit("N");
    assert("N"@ =~= seq!['N']);
    reveal_strlit("KeyO");
    assert("KeyO"@ =~= seq!['K', 'e', 'y', 'O']);
    reveal_strlit("O");
    assert("O"@ =~= seq!['O']);
    reveal_strlit("KeyP");
    assert("KeyP"@ =~= seq!['K', 'e', 'y', 'P']);
    reveal_strlit("P");
    assert("P"@ =~= seq!['P']);
    reveal_strlit("KeyQ");
    assert("KeyQ"@ =~= seq!['K', 'e', 'y', 'Q']);
    reveal_strlit("Q");
    assert("Q"@ =~= seq!['Q']);
    reveal_strlit("KeyR");
    assert("KeyR"@ =~= seq!['K', 'e', 'y', 'R']);
    reveal_strlit("R");
    assert("R"@ =~= seq!['R']);
    reveal_strlit("KeyS");
    assert("KeyS"@ =~= seq!['K', 'e', 'y', 'S']);
    reveal_strlit("S");
    assert("S"@ =~= seq!['S']);
    reveal_strlit("KeyT");
    assert("KeyT"@ =~= seq!['K', 'e', 'y', 'T']);
    reveal_strlit("T");
    assert("T"@ =~= seq!['T']);
    reveal_strlit("KeyU");
    assert("KeyU"@ =~= seq!['K', 'e', 'y', 'U']);
    reveal_strlit("U");
    assert("U"@ =~= seq!['U']);
    reveal_strlit("KeyV");
    assert("KeyV"@ =~= seq!['K', 'e', 'y', 'V']);
    reveal_strlit("V");
    assert("V"@ =~= seq!['V']);
    reveal_strlit("KeyW");
    assert("KeyW"@ =~= seq!['K', 'e', 'y', 'W']);
    reveal_strlit("W");
    assert("W"@ =~= seq!['W']);
    reveal_strlit("KeyX");
    assert("KeyX"@ =~= seq!['K', 'e', 'y', 'X']);
    reveal_strlit("X");
    assert("X"@ =~= seq!['X']);
    reveal_strlit("KeyY");
    assert("KeyY"@ =~= seq!['K', 'e', 'y', 'Y']);
    reveal_strlit("Y");
    assert("Y"@ =~= seq!['Y']);
    reveal_strlit("KeyZ");
    assert("KeyZ"@ =~= seq!['K', 'e', 'y', 'Z']);
    reveal_strlit("Z");
    assert("Z"@ =~= seq!['Z']);
    reveal_strlit("Digit0");
    assert("Digit0"@ =~= seq!['D', 'i', 'g', 'i', 't', '0']);
    reveal_strlit("0");
    assert("0"@ =~= seq!['0']);
    reveal_strlit("Digit1");
    assert("Digit1"@ =~= seq!['D', 'i', 'g', 'i', 't', '1']);
    reveal_strlit("1");
    assert("1"@ =~= seq!['1']);
    reveal_strlit("Digit2");
    assert("Digit2"@ =~= seq!['D', 'i', 'g', 'i', 't', '2']);
    reveal_strlit("2");
    assert("2"@ =~= seq!['2']);
    reveal_strlit("Digit3");
    assert("Digit3"@ =~= seq!['D', 'i', 'g', 'i', 't', '3']);
    reveal_strlit("3");
    assert("3"@ =~= seq!['3']);
    reveal_strlit("Digit4");
    assert("Digit4"@ =~= seq!['D', 'i', 'g', 'i', 't', '4']);
    reveal_strlit("4");
    assert("4"@ =~= seq!['4']);
    reveal_strlit("Digit5");
    assert("Digit5"@ =~= seq!['D', 'i', 'g', 'i', 't', '5']);
    reveal_strlit("5");
    assert("5"@ =~= seq!['5']);
    reveal_strlit("Digit6");
    assert("Digit6"@ =~= seq!['D', 'i', 'g', 'i', 't', '6']);
    reveal_strlit("6");
    assert("6"@ =~= seq!['6']);
    reveal_strlit("Digit7");
    assert("Digit7"@ =~= seq!['D', 'i', 'g', 'i', 't', '7']);
    reveal_strlit("7");
    assert("7"@ =~= seq!['7']);
    reveal_strlit("Digit8");
    assert("Digit8"@ =~= seq!['D', 'i', 'g', 'i', 't', '8']);
    reveal_strlit("8");
    assert("8"@ =~= seq!['8']);
    reveal_strlit("Digit9");
    assert("Digit9"@ =~= seq!['D', 'i', 'g', 'i', 't', '9']);
    reveal_strlit("9");
    assert("9"@ =~= seq!['9']);
    reveal_strlit("ArrowUp");
    assert("ArrowUp"@ =~= seq!['A', 'r', 'r', 'o', 'w', 'U', 'p']);
    reveal_strlit("Up");
    assert("Up"@ =~= seq!['U', 'p']);
    reveal_strlit("ArrowDown");
    assert("ArrowDown"@ =~= seq!['A', 'r', 'r', 'o', 'w', 'D', 'o', 'w', 'n']);
    reveal_strlit("Down");
    assert("Down"@ =~= seq!['D', 'o', 'w', 'n']);
    reveal_strlit("ArrowLeft");
    assert("ArrowLeft"@ =~= seq!['A', 'r', 'r', 'o', 'w', 'L', 'e', 'f', 't']);
    reveal_strlit("Left");
    assert("Left"@ =~= seq!['L', 'e', 'f', 't']);
    reveal_strlit("ArrowRight");
    assert("ArrowRight"@ =~= seq!['A', 'r', 'r', 'o', 'w', 'R', 'i', 'g', 'h', 't']);
    reveal_strlit("Right");
    assert("Right"@ =~= seq!['R', 'i', 'g', 'h', 't']);
    reveal_strlit("Enter");
    assert("Enter"@ =~= seq!['E', 'n', 't', 'e', 'r']);
    reveal_strlit("Return");
    assert("Return"@ =~= seq!['R', 'e', 't', 'u', 'r', 'n']);
    reveal_strlit("Space");
    assert("Space"@ =~= seq!['S', 'p', 'a', 'c', 'e']);
    reveal_strlit("Escape");
    assert("Escape"@ =~= seq!['E', 's', 'c', 'a', 'p', 'e']);
    reveal_strlit("Esc");
    assert("Esc"@ =~= seq!['E', 's', 'c']);
    reveal_strlit("Tab");
    assert("Tab"@ =~= seq!['T', 'a', 'b']);
    reveal_strlit("Backspace");
    assert("Backspace"@ =~= seq!['B', 'a', 'c', 'k', 's', 'p', 'a', 'c', 'e']);
    reveal_strlit("ShiftLeft");
    assert("ShiftLeft"@ =~= seq!['S', 'h', 'i', 'f', 't', 'L', 'e', 'f', 't']);
    reveal_strlit("LShift");
    assert("LShift"@ =~= seq!['L', 'S', 'h', 'i', 'f', 't']);
    reveal_strlit("ShiftRight");
    assert("ShiftRight"@ =~= seq!['S', 'h', 'i', 'f', 't', 'R', 'i', 'g', 'h', 't']);
    reveal_strlit("RShift");
    assert("RShift"@ =~= seq!['R', 'S', 'h', 'i', 'f', 't']);
    reveal_strlit("ControlLeft");
    assert("ControlLeft"@ =~= seq!['C', 'o', 'n', 't', 'r', 'o', 'l', 'L', 'e', 'f', 't']);
    reveal_strlit("LCtrl");
    assert("LCtrl"@ =~= seq!['L', 'C', 't', 'r', 'l']);
    reveal_strlit("Ctrl");
    assert("Ctrl"@ =~= seq!['C', 't', 'r', 'l']);
    reveal_strlit("ControlRight");
    assert("ControlRight"@ =~= seq!['C', 'o', 'n', 't', 'r', 'o', 'l', 'R', 'i', 'g', 'h', 't']);
    reveal_strlit("RCtrl");
    assert("RCtrl"@ =~= seq!['R', 'C', 't', 'r', 'l']);
    reveal_strlit("AltLeft");
    assert("AltLeft"@ =~= seq!['A', 'l', 't', 'L', 'e', 'f', 't']);
    reveal_strlit("LAlt");
    assert("LAlt"@ =~= seq!['L', 'A', 'l', 't']);
    reveal_strlit("Alt");
    assert("Alt"@ =~= seq!['A', 'l', 't']);
    reveal_strlit("AltRight");
    assert("AltRight"@ =~= seq!['A', 'l', 't', 'R', 'i', 'g', 'h', 't']);
    reveal_strlit("RAlt");
    assert("RAlt"@ =~= seq!['R', 'A', 'l', 't']);
    reveal_strlit("F1");
    assert("F1"@ =~= seq!['F', '1']);
    reveal_strlit("F2");
    assert("F2"@ =~= seq!['F', '2']);
    reveal_strlit("F3");
    assert("F3"@ =~= seq!['F', '3']);
    reveal_strlit("F4");
    assert("F4"@ =~= seq!['F', '4']);
    reveal_strlit("F5");
    assert("F5"@ =~= seq!['F', '5']);
    reveal_strlit("F6");
    assert("F6"@ =~= seq!['F', '6']);
    reveal_strlit("F7");
    assert("F7"@ =~= seq!['F', '7']);
    reveal_strlit("F8");
    assert("F8"@ =~= seq!['F', '8']);
    reveal_strlit("F9");
    assert("F9"@ =~= seq!['F', '9']);
    reveal_strlit("F10");
    assert("F10"@ =~= seq!['F', '1', '0']);
    reveal_strlit("F11");
    assert("F11"@ =~= seq!['F', '1', '1']);
    reveal_strlit("F12");
    assert("F12"@ =~= seq!['F', '1', '2']);
}
} // verus!
