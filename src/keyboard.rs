//! Keyboard input: native key codes and their translation to physical key codes.
use vstd::prelude::*;

verus! {

/// A key as the native windowing layer names it.
#[derive(Clone, Copy, Debug, PartialEq, Eq, Hash, Structural)]
pub enum VirtualKeyCode {
    Key1,
    Key2,
    Key3,
    Key4,
    Key5,
    Key6,
    Key7,
    Key8,
    Key9,
    Key0,
    A,
    B,
    C,
    D,
    E,
    F,
    G,
    H,
    I,
    J,
    K,
    L,
    M,
    N,
    O,
    P,
    Q,
    R,
    S,
    T,
    U,
    V,
    W,
    X,
    Y,
    Z,
    Escape,
    F1,
    F2,
    F3,
    F4,
    F5,
    F6,
    F7,
    F8,
    F9,
    F10,
    F11,
    F12,
    F13,
    F14,
    F15,
    F16,
    F17,
    F18,
    F19,
    F20,
    F21,
    F22,
    F23,
    F24,
    Snapshot,
    Scroll,
    Pause,
    Insert,
    Home,
    Delete,
    End,
    PageDown,
    PageUp,
    Left,
    Up,
    Right,
    Down,
    Back,
    Return,
    Space,
    Compose,
    Caret,
    Numlock,
    Numpad0,
    Numpad1,
    Numpad2,
    Numpad3,
    Numpad4,
    Numpad5,
    Numpad6,
    Numpad7,
    Numpad8,
    Numpad9,
    NumpadAdd,
    NumpadDivide,
    NumpadDecimal,
    NumpadComma,
    NumpadEnter,
    NumpadEquals,
    NumpadMultiply,
    NumpadSubtract,
    AbntC1,
    AbntC2,
    Apostrophe,
    Apps,
    Asterisk,
    At,
    Ax,
    Backslash,
    Calculator,
    Capital,
    Colon,
    Comma,
    Convert,
    Equals,
    Grave,
    Kana,
    Kanji,
    LAlt,
    LBracket,
    LControl,
    LShift,
    LWin,
    Mail,
    MediaSelect,
    MediaStop,
    Minus,
    Mute,
    MyComputer,
    NavigateForward,
    NavigateBackward,
    NextTrack,
    NoConvert,
    OEM102,
    Period,
    PlayPause,
    Plus,
    Power,
    PrevTrack,
    RAlt,
    RBracket,
    RControl,
    RShift,
    RWin,
    Semicolon,
    Slash,
    Sleep,
    Stop,
    Sysrq,
    Tab,
    Underline,
    Unlabeled,
    VolumeDown,
    VolumeUp,
    Wake,
    WebBack,
    WebFavorites,
    WebForward,
    WebHome,
    WebRefresh,
    WebSearch,
    WebStop,
    Yen,
    Copy,
    Paste,
    Cut,
}

/// The physical key, in the toolkit's naming; keys without a counterpart are `Unidentified`.
#[derive(Clone, Copy, Debug, PartialEq, Eq, Hash, Structural)]
pub enum Code {
    Digit1,
    Digit2,
    Digit3,
    Digit4,
    Digit5,
    Digit6,
    Digit7,
    Digit8,
    Digit9,
    Digit0,
    KeyA,
    KeyB,
    KeyC,
    KeyD,
    KeyE,
    KeyF,
    KeyG,
    KeyH,
    KeyI,
    KeyJ,
    KeyK,
    KeyL,
    KeyM,
    KeyN,
    KeyO,
    KeyP,
    KeyQ,
    KeyR,
    KeyS,
    KeyT,
    KeyU,
    KeyV,
    KeyW,
    KeyX,
    KeyY,
    KeyZ,
    Escape,
    F1,
    F2,
    F3,
    F4,
    F5,
    F6,
    F7,
    F8,
    F9,
    F10,
    F11,
    F12,
    PrintScreen,
    ScrollLock,
    Pause,
    Insert,
    Home,
    Delete,
    End,
    PageDown,
    PageUp,
    ArrowLeft,
    ArrowUp,
    ArrowRight,
    ArrowDown,
    Backspace,
    Enter,
    Space,
    NumLock,
    Numpad0,
    Numpad1,
    Numpad2,
    Numpad3,
    Numpad4,
    Numpad5,
    Numpad6,
    Numpad7,
    Numpad8,
    Numpad9,
    NumpadAdd,
    NumpadDivide,
    NumpadDecimal,
    NumpadComma,
    NumpadEnter,
    NumpadEqual,
    NumpadMultiply,
    NumpadSubtract,
    Backslash,
    Comma,
    Convert,
    Equal,
    MediaSelect,
    MediaStop,
    Minus,
    NonConvert,
    Period,
    Power,
    Semicolon,
    Slash,
    Sleep,
    Tab,
    Copy,
    Paste,
    Cut,
    Unidentified,
}

/// The physical key that a native key code stands for.
pub open spec fn code_for(vkc: VirtualKeyCode) -> Code {
    match vkc {
        VirtualKeyCode::Key1 => Code::Digit1,
        VirtualKeyCode::Key2 => Code::Digit2,
        VirtualKeyCode::Key3 => Code::Digit3,
        VirtualKeyCode::Key4 => Code::Digit4,
        VirtualKeyCode::Key5 => Code::Digit5,
        VirtualKeyCode::Key6 => Code::Digit6,
        VirtualKeyCode::Key7 => Code::Digit7,
        VirtualKeyCode::Key8 => Code::Digit8,
        VirtualKeyCode::Key9 => Code::Digit9,
        VirtualKeyCode::Key0 => Code::Digit0,
        VirtualKeyCode::A => Code::KeyA,
        VirtualKeyCode::B => Code::KeyB,
        VirtualKeyCode::C => Code::KeyC,
        VirtualKeyCode::D => Code::KeyD,
        VirtualKeyCode::E => Code::KeyE,
        VirtualKeyCode::F => Code::KeyF,
        VirtualKeyCode::G => Code::KeyG,
        VirtualKeyCode::H => Code::KeyH,
        VirtualKeyCode::I => Code::KeyI,
        VirtualKeyCode::J => Code::KeyJ,
        VirtualKeyCode::K => Code::KeyK,
        VirtualKeyCode::L => Code::KeyL,
        VirtualKeyCode::M => Code::KeyM,
        VirtualKeyCode::N => Code::KeyN,
        VirtualKeyCode::O => Code::KeyO,
        VirtualKeyCode::P => Code::KeyP,
        VirtualKeyCode::Q => Code::KeyQ,
        VirtualKeyCode::R => Code::KeyR,
        VirtualKeyCode::S => Code::KeyS,
        VirtualKeyCode::T => Code::KeyT,
        VirtualKeyCode::U => Code::KeyU,
        VirtualKeyCode::V => Code::KeyV,
        VirtualKeyCode::W => Code::KeyW,
        VirtualKeyCode::X => Code::KeyX,
        VirtualKeyCode::Y => Code::KeyY,
        VirtualKeyCode::Z => Code::KeyZ,
        VirtualKeyCode::Escape => Code::Escape,
        VirtualKeyCode::F1 => Code::F1,
        VirtualKeyCode::F2 => Code::F2,
        VirtualKeyCode::F3 => Code::F3,
        VirtualKeyCode::F4 => Code::F4,
        VirtualKeyCode::F5 => Code::F5,
        VirtualKeyCode::F6 => Code::F6,
        VirtualKeyCode::F7 => Code::F7,
        VirtualKeyCode::F8 => Code::F8,
        VirtualKeyCode::F9 => Code::F9,
        VirtualKeyCode::F10 => Code::F10,
        VirtualKeyCode::F11 => Code::F11,
        VirtualKeyCode::F12 => Code::F12,
        VirtualKeyCode::Snapshot => Code::PrintScreen,
        VirtualKeyCode::Scroll => Code::ScrollLock,
        VirtualKeyCode::Pause => Code::Pause,
        VirtualKeyCode::Insert => Code::Insert,
        VirtualKeyCode::Home => Code::Home,
        VirtualKeyCode::Delete => Code::Delete,
        VirtualKeyCode::End => Code::End,
        VirtualKeyCode::PageDown => Code::PageDown,
        VirtualKeyCode::PageUp => Code::PageUp,
        VirtualKeyCode::Left => Code::ArrowLeft,
        VirtualKeyCode::Up => Code::ArrowUp,
        VirtualKeyCode::Right => Code::ArrowRight,
        VirtualKeyCode::Down => Code::ArrowDown,
        VirtualKeyCode::Back => Code::Backspace,
        VirtualKeyCode::Return => Code::Enter,
        VirtualKeyCode::Space => Code::Space,
        VirtualKeyCode::Numlock => Code::NumLock,
        VirtualKeyCode::Numpad0 => Code::Numpad0,
        VirtualKeyCode::Numpad1 => Code::Numpad1,
        VirtualKeyCode::Numpad2 => Code::Numpad2,
        VirtualKeyCode::Numpad3 => Code::Numpad3,
        VirtualKeyCode::Numpad4 => Code::Numpad4,
        VirtualKeyCode::Numpad5 => Code::Numpad5,
        VirtualKeyCode::Numpad6 => Code::Numpad6,
        VirtualKeyCode::Numpad7 => Code::Numpad7,
        VirtualKeyCode::Numpad8 => Code::Numpad8,
        VirtualKeyCode::Numpad9 => Code::Numpad9,
        VirtualKeyCode::NumpadAdd => Code::NumpadAdd,
        VirtualKeyCode::NumpadDivide => Code::NumpadDivide,
        VirtualKeyCode::NumpadDecimal => Code::NumpadDecimal,
        VirtualKeyCode::NumpadComma => Code::NumpadComma,
        VirtualKeyCode::NumpadEnter => Code::NumpadEnter,
        VirtualKeyCode::NumpadEquals => Code::NumpadEqual,
        VirtualKeyCode::NumpadMultiply => Code::NumpadMultiply,
        VirtualKeyCode::NumpadSubtract => Code::NumpadSubtract,
        VirtualKeyCode::Backslash => Code::Backslash,
        VirtualKeyCode::Comma => Code::Comma,
        VirtualKeyCode::Convert => Code::Convert,
        VirtualKeyCode::Equals => Code::Equal,
        VirtualKeyCode::MediaSelect => Code::MediaSelect,
        VirtualKeyCode::MediaStop => Code::MediaStop,
        VirtualKeyCode::Minus => Code::Minus,
        VirtualKeyCode::NoConvert => Code::NonConvert,
        VirtualKeyCode::Period => Code::Period,
        VirtualKeyCode::Power => Code::Power,
        VirtualKeyCode::Semicolon => Code::Semicolon,
        VirtualKeyCode::Slash => Code::Slash,
        VirtualKeyCode::Sleep => Code::Sleep,
        VirtualKeyCode::Tab => Code::Tab,
        VirtualKeyCode::Copy => Code::Copy,
        VirtualKeyCode::Paste => Code::Paste,
        VirtualKeyCode::Cut => Code::Cut,
        _ => Code::Unidentified,
    }
}

/// Translates a native key code to the toolkit's key code by a fixed table.
pub fn virtual_keycode_to_code(vkc: VirtualKeyCode) -> (r: Code)
    ensures
        r == code_for(vkc),
{
    match vkc {
        VirtualKeyCode::Key1 => Code::Digit1,
        VirtualKeyCode::Key2 => Code::Digit2,
        VirtualKeyCode::Key3 => Code::Digit3,
        VirtualKeyCode::Key4 => Code::Digit4,
        VirtualKeyCode::Key5 => Code::Digit5,
        VirtualKeyCode::Key6 => Code::Digit6,
        VirtualKeyCode::Key7 => Code::Digit7,
        VirtualKeyCode::Key8 => Code::Digit8,
        VirtualKeyCode::Key9 => Code::Digit9,
        VirtualKeyCode::Key0 => Code::Digit0,
        VirtualKeyCode::A => Code::KeyA,
        VirtualKeyCode::B => Code::KeyB,
        VirtualKeyCode::C => Code::KeyC,
        VirtualKeyCode::D => Code::KeyD,
        VirtualKeyCode::E => Code::KeyE,
        VirtualKeyCode::F => Code::KeyF,
        VirtualKeyCode::G => Code::KeyG,
        VirtualKeyCode::H => Code::KeyH,
        VirtualKeyCode::I => Code::KeyI,
        VirtualKeyCode::J => Code::KeyJ,
        VirtualKeyCode::K => Code::KeyK,
        VirtualKeyCode::L => Code::KeyL,
        VirtualKeyCode::M => Code::KeyM,
        VirtualKeyCode::N => Code::KeyN,
        VirtualKeyCode::O => Code::KeyO,
        VirtualKeyCode::P => Code::KeyP,
        VirtualKeyCode::Q => Code::KeyQ,
        VirtualKeyCode::R => Code::KeyR,
        VirtualKeyCode::S => Code::KeyS,
        VirtualKeyCode::T => Code::KeyT,
        VirtualKeyCode::U => Code::KeyU,
        VirtualKeyCode::V => Code::KeyV,
        VirtualKeyCode::W => Code::KeyW,
        VirtualKeyCode::X => Code::KeyX,
        VirtualKeyCode::Y => Code::KeyY,
        VirtualKeyCode::Z => Code::KeyZ,
        VirtualKeyCode::Escape => Code::Escape,
        VirtualKeyCode::F1 => Code::F1,
        VirtualKeyCode::F2 => Code::F2,
        VirtualKeyCode::F3 => Code::F3,
        VirtualKeyCode::F4 => Code::F4,
        VirtualKeyCode::F5 => Code::F5,
        VirtualKeyCode::F6 => Code::F6,
        VirtualKeyCode::F7 => Code::F7,
        VirtualKeyCode::F8 => Code::F8,
        VirtualKeyCode::F9 => Code::F9,
        VirtualKeyCode::F10 => Code::F10,
        VirtualKeyCode::F11 => Code::F11,
        VirtualKeyCode::F12 => Code::F12,
        VirtualKeyCode::Snapshot => Code::PrintScreen,
        VirtualKeyCode::Scroll => Code::ScrollLock,
        VirtualKeyCode::Pause => Code::Pause,
        VirtualKeyCode::Insert => Code::Insert,
        VirtualKeyCode::Home => Code::Home,
        VirtualKeyCode::Delete => Code::Delete,
        VirtualKeyCode::End => Code::End,
        VirtualKeyCode::PageDown => Code::PageDown,
        VirtualKeyCode::PageUp => Code::PageUp,
        VirtualKeyCode::Left => Code::ArrowLeft,
        VirtualKeyCode::Up => Code::ArrowUp,
        VirtualKeyCode::Right => Code::ArrowRight,
        VirtualKeyCode::Down => Code::ArrowDown,
        VirtualKeyCode::Back => Code::Backspace,
        VirtualKeyCode::Return => Code::Enter,
        VirtualKeyCode::Space => Code::Space,
        VirtualKeyCode::Numlock => Code::NumLock,
        VirtualKeyCode::Numpad0 => Code::Numpad0,
        VirtualKeyCode::Numpad1 => Code::Numpad1,
        VirtualKeyCode::Numpad2 => Code::Numpad2,
        VirtualKeyCode::Numpad3 => Code::Numpad3,
        VirtualKeyCode::Numpad4 => Code::Numpad4,
        VirtualKeyCode::Numpad5 => Code::Numpad5,
        VirtualKeyCode::Numpad6 => Code::Numpad6,
        VirtualKeyCode::Numpad7 => Code::Numpad7,
        VirtualKeyCode::Numpad8 => Code::Numpad8,
        VirtualKeyCode::Numpad9 => Code::Numpad9,
        VirtualKeyCode::NumpadAdd => Code::NumpadAdd,
        VirtualKeyCode::NumpadDivide => Code::NumpadDivide,
        VirtualKeyCode::NumpadDecimal => Code::NumpadDecimal,
        VirtualKeyCode::NumpadComma => Code::NumpadComma,
        VirtualKeyCode::NumpadEnter => Code::NumpadEnter,
        VirtualKeyCode::NumpadEquals => Code::NumpadEqual,
        VirtualKeyCode::NumpadMultiply => Code::NumpadMultiply,
        VirtualKeyCode::NumpadSubtract => Code::NumpadSubtract,
        VirtualKeyCode::Backslash => Code::Backslash,
        VirtualKeyCode::Comma => Code::Comma,
        VirtualKeyCode::Convert => Code::Convert,
        VirtualKeyCode::Equals => Code::Equal,
        VirtualKeyCode::MediaSelect => Code::MediaSelect,
        VirtualKeyCode::MediaStop => Code::MediaStop,
        VirtualKeyCode::Minus => Code::Minus,
        VirtualKeyCode::NoConvert => Code::NonConvert,
        VirtualKeyCode::Period => Code::Period,
        VirtualKeyCode::Power => Code::Power,
        VirtualKeyCode::Semicolon => Code::Semicolon,
        VirtualKeyCode::Slash => Code::Slash,
        VirtualKeyCode::Sleep => Code::Sleep,
        VirtualKeyCode::Tab => Code::Tab,
        VirtualKeyCode::Copy => Code::Copy,
        VirtualKeyCode::Paste => Code::Paste,
        VirtualKeyCode::Cut => Code::Cut,
        _ => Code::Unidentified,
    }
}

/// The logical key: the character a key types, or the name of a key that types none.
#[derive(Clone, Copy, Debug, PartialEq, Eq, Hash, Structural)]
pub enum Key {
    Character(char),
    Escape,
    F1,
    F2,
    F3,
    F4,
    F5,
    F6,
    F7,
    F8,
    F9,
    F10,
    F11,
    F12,
    PrintScreen,
    ScrollLock,
    Pause,
    Insert,
    Home,
    Delete,
    End,
    PageDown,
    PageUp,
    ArrowLeft,
    ArrowUp,
    ArrowRight,
    ArrowDown,
    Backspace,
    Enter,
    NumLock,
    Tab,
    Convert,
    NonConvert,
    MediaStop,
    Power,
    Copy,
    Paste,
    Cut,
    Standby,
    Clear,
    Unidentified,
}

/// The modifier bit of a held Shift key.
pub const MOD_SHIFT: u32 = 0x1;

/// The modifier bit of an engaged Num Lock.
pub const MOD_NUM_LOCK: u32 = 0x100;

/// The logical key that physical key `code` gives under `mods`: Shift picks the
/// upper character of a typing key, and a numpad key types its digit when
/// exactly one of Num Lock and Shift is on, else acts as the navigation key
/// printed beside it.
pub open spec fn key_for(code: Code, mods: Modifiers) -> Key {
    let shift = mods.bits & MOD_SHIFT != 0;
    let num_lock = mods.bits & MOD_NUM_LOCK != 0;
    match code {
        Code::KeyA => if shift { Key::Character('A') } else { Key::Character('a') },
        Code::KeyB => if shift { Key::Character('B') } else { Key::Character('b') },
        Code::KeyC => if shift { Key::Character('C') } else { Key::Character('c') },
        Code::KeyD => if shift { Key::Character('D') } else { Key::Character('d') },
        Code::KeyE => if shift { Key::Character('E') } else { Key::Character('e') },
        Code::KeyF => if shift { Key::Character('F') } else { Key::Character('f') },
        Code::KeyG => if shift { Key::Character('G') } else { Key::Character('g') },
        Code::KeyH => if shift { Key::Character('H') } else { Key::Character('h') },
        Code::KeyI => if shift { Key::Character('I') } else { Key::Character('i') },
        Code::KeyJ => if shift { Key::Character('J') } else { Key::Character('j') },
        Code::KeyK => if shift { Key::Character('K') } else { Key::Character('k') },
        Code::KeyL => if shift { Key::Character('L') } else { Key::Character('l') },
        Code::KeyM => if shift { Key::Character('M') } else { Key::Character('m') },
        Code::KeyN => if shift { Key::Character('N') } else { Key::Character('n') },
        Code::KeyO => if shift { Key::Character('O') } else { Key::Character('o') },
        Code::KeyP => if shift { Key::Character('P') } else { Key::Character('p') },
        Code::KeyQ => if shift { Key::Character('Q') } else { Key::Character('q') },
        Code::KeyR => if shift { Key::Character('R') } else { Key::Character('r') },
        Code::KeyS => if shift { Key::Character('S') } else { Key::Character('s') },
        Code::KeyT => if shift { Key::Character('T') } else { Key::Character('t') },
        Code::KeyU => if shift { Key::Character('U') } else { Key::Character('u') },
        Code::KeyV => if shift { Key::Character('V') } else { Key::Character('v') },
        Code::KeyW => if shift { Key::Character('W') } else { Key::Character('w') },
        Code::KeyX => if shift { Key::Character('X') } else { Key::Character('x') },
        Code::KeyY => if shift { Key::Character('Y') } else { Key::Character('y') },
        Code::KeyZ => if shift { Key::Character('Z') } else { Key::Character('z') },
        Code::Digit1 => if shift { Key::Character('!') } else { Key::Character('1') },
        Code::Digit2 => if shift { Key::Character('@') } else { Key::Character('2') },
        Code::Digit3 => if shift { Key::Character('#') } else { Key::Character('3') },
        Code::Digit4 => if shift { Key::Character('$') } else { Key::Character('4') },
        Code::Digit5 => if shift { Key::Character('%') } else { Key::Character('5') },
        Code::Digit6 => if shift { Key::Character('^') } else { Key::Character('6') },
        Code::Digit7 => if shift { Key::Character('&') } else { Key::Character('7') },
        Code::Digit8 => if shift { Key::Character('*') } else { Key::Character('8') },
        Code::Digit9 => if shift { Key::Character('(') } else { Key::Character('9') },
        Code::Digit0 => if shift { Key::Character(')') } else { Key::Character('0') },
        Code::Minus => if shift { Key::Character('_') } else { Key::Character('-') },
        Code::Equal => if shift { Key::Character('+') } else { Key::Character('=') },
        Code::Backslash => if shift { Key::Character('|') } else { Key::Character('\\') },
        Code::Semicolon => if shift { Key::Character(':') } else { Key::Character(';') },
        Code::Comma => if shift { Key::Character('<') } else { Key::Character(',') },
        Code::Period => if shift { Key::Character('>') } else { Key::Character('.') },
        Code::Slash => if shift { Key::Character('?') } else { Key::Character('/') },
        Code::Numpad0 => if num_lock != shift { Key::Character('0') } else { Key::Insert },
        Code::Numpad1 => if num_lock != shift { Key::Character('1') } else { Key::End },
        Code::Numpad2 => if num_lock != shift { Key::Character('2') } else { Key::ArrowDown },
        Code::Numpad3 => if num_lock != shift { Key::Character('3') } else { Key::PageDown },
        Code::Numpad4 => if num_lock != shift { Key::Character('4') } else { Key::ArrowLeft },
        Code::Numpad5 => if num_lock != shift { Key::Character('5') } else { Key::Clear },
        Code::Numpad6 => if num_lock != shift { Key::Character('6') } else { Key::ArrowRight },
        Code::Numpad7 => if num_lock != shift { Key::Character('7') } else { Key::Home },
        Code::Numpad8 => if num_lock != shift { Key::Character('8') } else { Key::ArrowUp },
        Code::Numpad9 => if num_lock != shift { Key::Character('9') } else { Key::PageUp },
        Code::NumpadDecimal => if num_lock != shift { Key::Character('.') } else { Key::Delete },
        Code::Space => Key::Character(' '),
        Code::NumpadAdd => Key::Character('+'),
        Code::NumpadDivide => Key::Character('/'),
        Code::NumpadMultiply => Key::Character('*'),
        Code::NumpadSubtract => Key::Character('-'),
        Code::NumpadComma => Key::Character(','),
        Code::NumpadEqual => Key::Character('='),
        Code::Escape => Key::Escape,
        Code::F1 => Key::F1,
        Code::F2 => Key::F2,
        Code::F3 => Key::F3,
        Code::F4 => Key::F4,
        Code::F5 => Key::F5,
        Code::F6 => Key::F6,
        Code::F7 => Key::F7,
        Code::F8 => Key::F8,
        Code::F9 => Key::F9,
        Code::F10 => Key::F10,
        Code::F11 => Key::F11,
        Code::F12 => Key::F12,
        Code::PrintScreen => Key::PrintScreen,
        Code::ScrollLock => Key::ScrollLock,
        Code::Pause => Key::Pause,
        Code::Insert => Key::Insert,
        Code::Home => Key::Home,
        Code::Delete => Key::Delete,
        Code::End => Key::End,
        Code::PageDown => Key::PageDown,
        Code::PageUp => Key::PageUp,
        Code::ArrowLeft => Key::ArrowLeft,
        Code::ArrowUp => Key::ArrowUp,
        Code::ArrowRight => Key::ArrowRight,
        Code::ArrowDown => Key::ArrowDown,
        Code::Backspace => Key::Backspace,
        Code::Enter => Key::Enter,
        Code::NumLock => Key::NumLock,
        Code::Tab => Key::Tab,
        Code::Convert => Key::Convert,
        Code::NonConvert => Key::NonConvert,
        Code::MediaStop => Key::MediaStop,
        Code::Power => Key::Power,
        Code::Copy => Key::Copy,
        Code::Paste => Key::Paste,
        Code::Cut => Key::Cut,
        Code::NumpadEnter => Key::Enter,
        Code::Sleep => Key::Standby,
        _ => Key::Unidentified,
    }
}

/// The logical key that physical key `code` gives under `mods`.
pub fn code_to_key(code: Code, mods: Modifiers) -> (r: Key)
    ensures
        r == key_for(code, mods),
{
    let shift = mods.bits & MOD_SHIFT != 0;
    let num_lock = mods.bits & MOD_NUM_LOCK != 0;
    match code {
        Code::KeyA => if shift { Key::Character('A') } else { Key::Character('a') },
        Code::KeyB => if shift { Key::Character('B') } else { Key::Character('b') },
        Code::KeyC => if shift { Key::Character('C') } else { Key::Character('c') },
        Code::KeyD => if shift { Key::Character('D') } else { Key::Character('d') },
        Code::KeyE => if shift { Key::Character('E') } else { Key::Character('e') },
        Code::KeyF => if shift { Key::Character('F') } else { Key::Character('f') },
        Code::KeyG => if shift { Key::Character('G') } else { Key::Character('g') },
        Code::KeyH => if shift { Key::Character('H') } else { Key::Character('h') },
        Code::KeyI => if shift { Key::Character('I') } else { Key::Character('i') },
        Code::KeyJ => if shift { Key::Character('J') } else { Key::Character('j') },
        Code::KeyK => if shift { Key::Character('K') } else { Key::Character('k') },
        Code::KeyL => if shift { Key::Character('L') } else { Key::Character('l') },
        Code::KeyM => if shift { Key::Character('M') } else { Key::Character('m') },
        Code::KeyN => if shift { Key::Character('N') } else { Key::Character('n') },
        Code::KeyO => if shift { Key::Character('O') } else { Key::Character('o') },
        Code::KeyP => if shift { Key::Character('P') } else { Key::Character('p') },
        Code::KeyQ => if shift { Key::Character('Q') } else { Key::Character('q') },
        Code::KeyR => if shift { Key::Character('R') } else { Key::Character('r') },
        Code::KeyS => if shift { Key::Character('S') } else { Key::Character('s') },
        Code::KeyT => if shift { Key::Character('T') } else { Key::Character('t') },
        Code::KeyU => if shift { Key::Character('U') } else { Key::Character('u') },
        Code::KeyV => if shift { Key::Character('V') } else { Key::Character('v') },
        Code::KeyW => if shift { Key::Character('W') } else { Key::Character('w') },
        Code::KeyX => if shift { Key::Character('X') } else { Key::Character('x') },
        Code::KeyY => if shift { Key::Character('Y') } else { Key::Character('y') },
        Code::KeyZ => if shift { Key::Character('Z') } else { Key::Character('z') },
        Code::Digit1 => if shift { Key::Character('!') } else { Key::Character('1') },
        Code::Digit2 => if shift { Key::Character('@') } else { Key::Character('2') },
        Code::Digit3 => if shift { Key::Character('#') } else { Key::Character('3') },
        Code::Digit4 => if shift { Key::Character('$') } else { Key::Character('4') },
        Code::Digit5 => if shift { Key::Character('%') } else { Key::Character('5') },
        Code::Digit6 => if shift { Key::Character('^') } else { Key::Character('6') },
        Code::Digit7 => if shift { Key::Character('&') } else { Key::Character('7') },
        Code::Digit8 => if shift { Key::Character('*') } else { Key::Character('8') },
        Code::Digit9 => if shift { Key::Character('(') } else { Key::Character('9') },
        Code::Digit0 => if shift { Key::Character(')') } else { Key::Character('0') },
        Code::Minus => if shift { Key::Character('_') } else { Key::Character('-') },
        Code::Equal => if shift { Key::Character('+') } else { Key::Character('=') },
        Code::Backslash => if shift { Key::Character('|') } else { Key::Character('\\') },
        Code::Semicolon => if shift { Key::Character(':') } else { Key::Character(';') },
        Code::Comma => if shift { Key::Character('<') } else { Key::Character(',') },
        Code::Period => if shift { Key::Character('>') } else { Key::Character('.') },
        Code::Slash => if shift { Key::Character('?') } else { Key::Character('/') },
        Code::Numpad0 => if num_lock != shift { Key::Character('0') } else { Key::Insert },
        Code::Numpad1 => if num_lock != shift { Key::Character('1') } else { Key::End },
        Code::Numpad2 => if num_lock != shift { Key::Character('2') } else { Key::ArrowDown },
        Code::Numpad3 => if num_lock != shift { Key::Character('3') } else { Key::PageDown },
        Code::Numpad4 => if num_lock != shift { Key::Character('4') } else { Key::ArrowLeft },
        Code::Numpad5 => if num_lock != shift { Key::Character('5') } else { Key::Clear },
        Code::Numpad6 => if num_lock != shift { Key::Character('6') } else { Key::ArrowRight },
        Code::Numpad7 => if num_lock != shift { Key::Character('7') } else { Key::Home },
        Code::Numpad8 => if num_lock != shift { Key::Character('8') } else { Key::ArrowUp },
        Code::Numpad9 => if num_lock != shift { Key::Character('9') } else { Key::PageUp },
        Code::NumpadDecimal => if num_lock != shift { Key::Character('.') } else { Key::Delete },
        Code::Space => Key::Character(' '),
        Code::NumpadAdd => Key::Character('+'),
        Code::NumpadDivide => Key::Character('/'),
        Code::NumpadMultiply => Key::Character('*'),
        Code::NumpadSubtract => Key::Character('-'),
        Code::NumpadComma => Key::Character(','),
        Code::NumpadEqual => Key::Character('='),
        Code::Escape => Key::Escape,
        Code::F1 => Key::F1,
        Code::F2 => Key::F2,
        Code::F3 => Key::F3,
        Code::F4 => Key::F4,
        Code::F5 => Key::F5,
        Code::F6 => Key::F6,
        Code::F7 => Key::F7,
        Code::F8 => Key::F8,
        Code::F9 => Key::F9,
        Code::F10 => Key::F10,
        Code::F11 => Key::F11,
        Code::F12 => Key::F12,
        Code::PrintScreen => Key::PrintScreen,
        Code::ScrollLock => Key::ScrollLock,
        Code::Pause => Key::Pause,
        Code::Insert => Key::Insert,
        Code::Home => Key::Home,
        Code::Delete => Key::Delete,
        Code::End => Key::End,
        Code::PageDown => Key::PageDown,
        Code::PageUp => Key::PageUp,
        Code::ArrowLeft => Key::ArrowLeft,
        Code::ArrowUp => Key::ArrowUp,
        Code::ArrowRight => Key::ArrowRight,
        Code::ArrowDown => Key::ArrowDown,
        Code::Backspace => Key::Backspace,
        Code::Enter => Key::Enter,
        Code::NumLock => Key::NumLock,
        Code::Tab => Key::Tab,
        Code::Convert => Key::Convert,
        Code::NonConvert => Key::NonConvert,
        Code::MediaStop => Key::MediaStop,
        Code::Power => Key::Power,
        Code::Copy => Key::Copy,
        Code::Paste => Key::Paste,
        Code::Cut => Key::Cut,
        Code::NumpadEnter => Key::Enter,
        Code::Sleep => Key::Standby,
        _ => Key::Unidentified,
    }
}

/// Whether a native key or button went down or came up.
#[derive(Clone, Copy, Debug, PartialEq, Eq, Hash, Structural)]
pub enum ElementState {
    Pressed,
    Released,
}

/// A native keyboard event: the key, if the native layer named it, and its state.
#[derive(Clone, Copy, Debug, PartialEq, Eq, Structural)]
pub struct KeyboardInput {
    pub state: ElementState,
    pub virtual_keycode: Option<VirtualKeyCode>,
}

/// The direction of a key event.
#[derive(Clone, Copy, Debug, PartialEq, Eq, Hash, Structural)]
pub enum KeyState {
    Down,
    Up,
}

/// Where on the keyboard a key lies.
#[derive(Clone, Copy, Debug, PartialEq, Eq, Hash, Structural)]
pub enum Location {
    Standard,
    Left,
    Right,
    Numpad,
}

/// The modifier keys held, one bit each.
#[derive(Clone, Copy, Debug, PartialEq, Eq, Hash, Structural)]
pub struct Modifiers {
    pub bits: u32,
}

impl Modifiers {
    /// No modifier held.
    pub fn empty() -> (r: Modifiers)
        ensures
            r.bits == 0,
    {
        Modifiers { bits: 0 }
    }
}

/// A key event as the toolkit receives it.
#[derive(Clone, Copy, Debug, PartialEq, Eq, Structural)]
pub struct KeyEvent {
    pub state: KeyState,
    pub code: Code,
    pub key: Key,
    pub mods: Modifiers,
    pub location: Location,
    pub repeat: bool,
    pub is_composing: bool,
}

/// The key code of a native key, `Unidentified` where the native layer named none.
pub open spec fn input_code(input: KeyboardInput) -> Code {
    match input.virtual_keycode {
        Some(vkc) => code_for(vkc),
        None => Code::Unidentified,
    }
}

/// The key event for a native keyboard event.
pub open spec fn key_event_for(input: KeyboardInput) -> KeyEvent {
    KeyEvent {
        state: match input.state {
            ElementState::Pressed => KeyState::Down,
            ElementState::Released => KeyState::Up,
        },
        code: input_code(input),
        key: key_for(input_code(input), Modifiers { bits: 0 }),
        mods: Modifiers { bits: 0 },
        location: Location::Standard,
        repeat: false,
        is_composing: false,
    }
}

/// The native keyboard event asks the event loop to quit: Escape went down.
pub fn is_quit_key(input: KeyboardInput) -> (r: bool)
    ensures
        r == (input.state == ElementState::Pressed && input.virtual_keycode == Some(
            VirtualKeyCode::Escape,
        )),
{
    match (input.state, input.virtual_keycode) {
        (ElementState::Pressed, Some(VirtualKeyCode::Escape)) => true,
        _ => false,
    }
}

/// Translates a native keyboard event. Modifiers, repeat and composition are not
/// tracked: they are always empty and false, and the location is `Standard`.
pub fn key_event_from_input(input: KeyboardInput) -> (r: KeyEvent)
    ensures
        r.state == (match input.state {
            ElementState::Pressed => KeyState::Down,
            ElementState::Released => KeyState::Up,
        }),
        r.code == input_code(input),
        r.key == key_for(r.code, Modifiers { bits: 0 }),
        r.mods.bits == 0,
        r.location == Location::Standard,
        !r.repeat,
        !r.is_composing,
        r == key_event_for(input),
{
    let state = match input.state {
        ElementState::Pressed => KeyState::Down,
        ElementState::Released => KeyState::Up,
    };
    let code = match input.virtual_keycode {
        Some(vkc) => virtual_keycode_to_code(vkc),
        None => Code::Unidentified,
    };
    let mods = Modifiers::empty();
    let key = code_to_key(code, mods);
    KeyEvent {
        state,
        code,
        key,
        mods,
        location: Location::Standard,
        repeat: false,
        is_composing: false,
    }
}

} // verus!
