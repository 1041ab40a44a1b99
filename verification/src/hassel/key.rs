//! The keys of the keyboard and the codes that stand for them on the bus.

use vstd::prelude::*;
use vstd::std_specs::convert::FromSpecImpl;

verus! {

/// A key of the keyboard.
#[derive(Copy, Clone, Debug, PartialEq, Eq, Structural)]
pub enum Key {
    Key0,
    Key1,
    Key2,
    Key3,
    Key4,
    Key5,
    Key6,
    Key7,
    Key8,
    Key9,
    A,
    B,
    C,
    D,
    E,
    F,
    G,
    H,
    I,
    J,
    K,
    L,
    M,
    N,
    O,
    P,
    Q,
    R,
    S,
    T,
    U,
    V,
    W,
    X,
    Y,
    Z,
    Space,
    Tab,
    Backslash,
    Comma,
    Equal,
    LeftBracket,
    Minus,
    Period,
    RightBracket,
    Semicolon,
    Slash,
    Enter,
    Backspace,
    Delete,
    End,
    F1,
    F2,
    F3,
    F4,
    F5,
    F6,
    F7,
    F8,
    F9,
    F10,
    F11,
    F12,
    F13,
    F14,
    F15,
    Down,
    Left,
    Right,
    Up,
    Apostrophe,
    Backquote,
    Escape,
    Home,
    Insert,
    Menu,
    PageDown,
    PageUp,
    Pause,
    NumLock,
    CapsLock,
    ScrollLock,
    LeftShift,
    RightShift,
    LeftCtrl,
    RightCtrl,
    NumPad0,
    NumPad1,
    NumPad2,
    NumPad3,
    NumPad4,
    NumPad5,
    NumPad6,
    NumPad7,
    NumPad8,
    NumPad9,
    NumPadDot,
    NumPadSlash,
    NumPadAsterisk,
    NumPadMinus,
    NumPadPlus,
    NumPadEnter,
    LeftAlt,
    RightAlt,
    LeftSuper,
    RightSuper,
    Unknown,
}

impl Key {
    /// The code that stands for the key: its character for the keys that
    /// have one, a number from 128 on for the others, 255 for a key that is
    /// not known.
    pub open spec fn spec_code(self) -> u8 {
        match self {
            Key::Key0 => 48,
            Key::Key1 => 49,
            Key::Key2 => 50,
            Key::Key3 => 51,
            Key::Key4 => 52,
            Key::Key5 => 53,
            Key::Key6 => 54,
            Key::Key7 => 55,
            Key::Key8 => 56,
            Key::Key9 => 57,
            Key::A => 65,
            Key::B => 66,
            Key::C => 67,
            Key::D => 68,
            Key::E => 69,
            Key::F => 70,
            Key::G => 71,
            Key::H => 72,
            Key::I => 73,
            Key::J => 74,
            Key::K => 75,
            Key::L => 76,
            Key::M => 77,
            Key::N => 78,
            Key::O => 79,
            Key::P => 80,
            Key::Q => 81,
            Key::R => 82,
            Key::S => 83,
            Key::T => 84,
            Key::U => 85,
            Key::V => 86,
            Key::W => 87,
            Key::X => 88,
            Key::Y => 89,
            Key::Z => 90,
            Key::Space => 32,
            Key::Tab => 9,
            Key::Backslash => 92,
            Key::Comma => 44,
            Key::Equal => 61,
            Key::LeftBracket => 91,
            Key::Minus => 45,
            Key::Period => 46,
            Key::RightBracket => 93,
            Key::Semicolon => 59,
            Key::Slash => 47,
            Key::Enter => 10,
            Key::Backspace => 128,
            Key::Delete => 129,
            Key::End => 130,
            Key::F1 => 131,
            Key::F2 => 132,
            Key::F3 => 133,
            Key::F4 => 134,
            Key::F5 => 135,
            Key::F6 => 136,
            Key::F7 => 137,
            Key::F8 => 138,
            Key::F9 => 139,
            Key::F10 => 140,
            Key::F11 => 141,
            Key::F12 => 142,
            Key::F13 => 143,
            Key::F14 => 144,
            Key::F15 => 145,
            Key::Down => 146,
            Key::Left => 147,
            Key::Right => 148,
            Key::Up => 149,
            Key::Apostrophe => 150,
            Key::Backquote => 151,
            Key::Escape => 152,
            Key::Home => 153,
            Key::Insert => 154,
            Key::Menu => 155,
            Key::PageDown => 156,
            Key::PageUp => 157,
            Key::Pause => 158,
            Key::NumLock => 159,
            Key::CapsLock => 160,
            Key::ScrollLock => 161,
            Key::LeftShift => 162,
            Key::RightShift => 163,
            Key::LeftCtrl => 164,
            Key::RightCtrl => 165,
            Key::NumPad0 => 166,
            Key::NumPad1 => 167,
            Key::NumPad2 => 168,
            Key::NumPad3 => 169,
            Key::NumPad4 => 170,
            Key::NumPad5 => 171,
            Key::NumPad6 => 172,
            Key::NumPad7 => 173,
            Key::NumPad8 => 174,
            Key::NumPad9 => 175,
            Key::NumPadDot => 176,
            Key::NumPadSlash => 177,
            Key::NumPadAsterisk => 178,
            Key::NumPadMinus => 179,
            Key::NumPadPlus => 180,
            Key::NumPadEnter => 181,
            Key::LeftAlt => 182,
            Key::RightAlt => 183,
            Key::LeftSuper => 184,
            Key::RightSuper => 185,
            Key::Unknown => 255,
        }
    }

    /// The key that a code stands for; a key that is not known where it stands
    /// for none.
    pub open spec fn spec_from_code(code: u8) -> Key {
        match code {
            48 => Key::Key0,
            49 => Key::Key1,
            50 => Key::Key2,
            51 => Key::Key3,
            52 => Key::Key4,
            53 => Key::Key5,
            54 => Key::Key6,
            55 => Key::Key7,
            56 => Key::Key8,
            57 => Key::Key9,
            65 => Key::A,
            66 => Key::B,
            67 => Key::C,
            68 => Key::D,
            69 => Key::E,
            70 => Key::F,
            71 => Key::G,
            72 => Key::H,
            73 => Key::I,
            74 => Key::J,
            75 => Key::K,
            76 => Key::L,
            77 => Key::M,
            78 => Key::N,
            79 => Key::O,
            80 => Key::P,
            81 => Key::Q,
            82 => Key::R,
            83 => Key::S,
            84 => Key::T,
            85 => Key::U,
            86 => Key::V,
            87 => Key::W,
            88 => Key::X,
            89 => Key::Y,
            90 => Key::Z,
            32 => Key::Space,
            9 => Key::Tab,
            92 => Key::Backslash,
            44 => Key::Comma,
            61 => Key::Equal,
            91 => Key::LeftBracket,
            45 => Key::Minus,
            46 => Key::Period,
            93 => Key::RightBracket,
            59 => Key::Semicolon,
            47 => Key::Slash,
            10 => Key::Enter,
            128 => Key::Backspace,
            129 => Key::Delete,
            130 => Key::End,
            131 => Key::F1,
            132 => Key::F2,
            133 => Key::F3,
            134 => Key::F4,
            135 => Key::F5,
            136 => Key::F6,
            137 => Key::F7,
            138 => Key::F8,
            139 => Key::F9,
            140 => Key::F10,
            141 => Key::F11,
            142 => Key::F12,
            143 => Key::F13,
            144 => Key::F14,
            145 => Key::F15,
            146 => Key::Down,
            147 => Key::Left,
            148 => Key::Right,
            149 => Key::Up,
            150 => Key::Apostrophe,
            151 => Key::Backquote,
            152 => Key::Escape,
            153 => Key::Home,
            154 => Key::Insert,
            155 => Key::Menu,
            156 => Key::PageDown,
            157 => Key::PageUp,
            158 => Key::Pause,
            159 => Key::NumLock,
            160 => Key::CapsLock,
            161 => Key::ScrollLock,
            162 => Key::LeftShift,
            163 => Key::RightShift,
            164 => Key::LeftCtrl,
            165 => Key::RightCtrl,
            166 => Key::NumPad0,
            167 => Key::NumPad1,
            168 => Key::NumPad2,
            169 => Key::NumPad3,
            170 => Key::NumPad4,
            171 => Key::NumPad5,
            172 => Key::NumPad6,
            173 => Key::NumPad7,
            174 => Key::NumPad8,
            175 => Key::NumPad9,
            176 => Key::NumPadDot,
            177 => Key::NumPadSlash,
            178 => Key::NumPadAsterisk,
            179 => Key::NumPadMinus,
            180 => Key::NumPadPlus,
            181 => Key::NumPadEnter,
            182 => Key::LeftAlt,
            183 => Key::RightAlt,
            184 => Key::LeftSuper,
            185 => Key::RightSuper,
            _ => Key::Unknown,
        }
    }

    /// The code that stands for the key.
    #[verifier::when_used_as_spec(spec_code)]
    pub fn code(self) -> (r: u8)
        ensures
            r == self.spec_code(),
    {
        match self {
            Key::Key0 => 48,
            Key::Key1 => 49,
            Key::Key2 => 50,
            Key::Key3 => 51,
            Key::Key4 => 52,
            Key::Key5 => 53,
            Key::Key6 => 54,
            Key::Key7 => 55,
            Key::Key8 => 56,
            Key::Key9 => 57,
            Key::A => 65,
            Key::B => 66,
            Key::C => 67,
            Key::D => 68,
            Key::E => 69,
            Key::F => 70,
            Key::G => 71,
            Key::H => 72,
            Key::I => 73,
            Key::J => 74,
            Key::K => 75,
            Key::L => 76,
            Key::M => 77,
            Key::N => 78,
            Key::O => 79,
            Key::P => 80,
            Key::Q => 81,
            Key::R => 82,
            Key::S => 83,
            Key::T => 84,
            Key::U => 85,
            Key::V => 86,
            Key::W => 87,
            Key::X => 88,
            Key::Y => 89,
            Key::Z => 90,
            Key::Space => 32,
            Key::Tab => 9,
            Key::Backslash => 92,
            Key::Comma => 44,
            Key::Equal => 61,
            Key::LeftBracket => 91,
            Key::Minus => 45,
            Key::Period => 46,
            Key::RightBracket => 93,
            Key::Semicolon => 59,
            Key::Slash => 47,
            Key::Enter => 10,
            Key::Backspace => 128,
            Key::Delete => 129,
            Key::End => 130,
            Key::F1 => 131,
            Key::F2 => 132,
            Key::F3 => 133,
            Key::F4 => 134,
            Key::F5 => 135,
            Key::F6 => 136,
            Key::F7 => 137,
            Key::F8 => 138,
            Key::F9 => 139,
            Key::F10 => 140,
            Key::F11 => 141,
            Key::F12 => 142,
            Key::F13 => 143,
            Key::F14 => 144,
            Key::F15 => 145,
            Key::Down => 146,
            Key::Left => 147,
            Key::Right => 148,
            Key::Up => 149,
            Key::Apostrophe => 150,
            Key::Backquote => 151,
            Key::Escape => 152,
            Key::Home => 153,
            Key::Insert => 154,
            Key::Menu => 155,
            Key::PageDown => 156,
            Key::PageUp => 157,
            Key::Pause => 158,
            Key::NumLock => 159,
            Key::CapsLock => 160,
            Key::ScrollLock => 161,
            Key::LeftShift => 162,
            Key::RightShift => 163,
            Key::LeftCtrl => 164,
            Key::RightCtrl => 165,
            Key::NumPad0 => 166,
            Key::NumPad1 => 167,
            Key::NumPad2 => 168,
            Key::NumPad3 => 169,
            Key::NumPad4 => 170,
            Key::NumPad5 => 171,
            Key::NumPad6 => 172,
            Key::NumPad7 => 173,
            Key::NumPad8 => 174,
            Key::NumPad9 => 175,
            Key::NumPadDot => 176,
            Key::NumPadSlash => 177,
            Key::NumPadAsterisk => 178,
            Key::NumPadMinus => 179,
            Key::NumPadPlus => 180,
            Key::NumPadEnter => 181,
            Key::LeftAlt => 182,
            Key::RightAlt => 183,
            Key::LeftSuper => 184,
            Key::RightSuper => 185,
            Key::Unknown => 255,
        }
    }

    /// The key that a code stands for.
    #[verifier::when_used_as_spec(spec_from_code)]
    pub fn from_code(code: u8) -> (r: Key)
        ensures
            r == Key::spec_from_code(code),
    {
        match code {
            48 => Key::Key0,
            49 => Key::Key1,
            50 => Key::Key2,
            51 => Key::Key3,
            52 => Key::Key4,
            53 => Key::Key5,
            54 => Key::Key6,
            55 => Key::Key7,
            56 => Key::Key8,
            57 => Key::Key9,
            65 => Key::A,
            66 => Key::B,
            67 => Key::C,
            68 => Key::D,
            69 => Key::E,
            70 => Key::F,
            71 => Key::G,
            72 => Key::H,
            73 => Key::I,
            74 => Key::J,
            75 => Key::K,
            76 => Key::L,
            77 => Key::M,
            78 => Key::N,
            79 => Key::O,
            80 => Key::P,
            81 => Key::Q,
            82 => Key::R,
            83 => Key::S,
            84 => Key::T,
            85 => Key::U,
            86 => Key::V,
            87 => Key::W,
            88 => Key::X,
            89 => Key::Y,
            90 => Key::Z,
            32 => Key::Space,
            9 => Key::Tab,
            92 => Key::Backslash,
            44 => Key::Comma,
            61 => Key::Equal,
            91 => Key::LeftBracket,
            45 => Key::Minus,
            46 => Key::Period,
            93 => Key::RightBracket,
            59 => Key::Semicolon,
            47 => Key::Slash,
            10 => Key::Enter,
            128 => Key::Backspace,
            129 => Key::Delete,
            130 => Key::End,
            131 => Key::F1,
            132 => Key::F2,
            133 => Key::F3,
            134 => Key::F4,
            135 => Key::F5,
            136 => Key::F6,
            137 => Key::F7,
            138 => Key::F8,
            139 => Key::F9,
            140 => Key::F10,
            141 => Key::F11,
            142 => Key::F12,
            143 => Key::F13,
            144 => Key::F14,
            145 => Key::F15,
            146 => Key::Down,
            147 => Key::Left,
            148 => Key::Right,
            149 => Key::Up,
            150 => Key::Apostrophe,
            151 => Key::Backquote,
            152 => Key::Escape,
            153 => Key::Home,
            154 => Key::Insert,
            155 => Key::Menu,
            156 => Key::PageDown,
            157 => Key::PageUp,
            158 => Key::Pause,
            159 => Key::NumLock,
            160 => Key::CapsLock,
            161 => Key::ScrollLock,
            162 => Key::LeftShift,
            163 => Key::RightShift,
            164 => Key::LeftCtrl,
            165 => Key::RightCtrl,
            166 => Key::NumPad0,
            167 => Key::NumPad1,
            168 => Key::NumPad2,
            169 => Key::NumPad3,
            170 => Key::NumPad4,
            171 => Key::NumPad5,
            172 => Key::NumPad6,
            173 => Key::NumPad7,
            174 => Key::NumPad8,
            175 => Key::NumPad9,
            176 => Key::NumPadDot,
            177 => Key::NumPadSlash,
            178 => Key::NumPadAsterisk,
            179 => Key::NumPadMinus,
            180 => Key::NumPadPlus,
            181 => Key::NumPadEnter,
            182 => Key::LeftAlt,
            183 => Key::RightAlt,
            184 => Key::LeftSuper,
            185 => Key::RightSuper,
            _ => Key::Unknown,
        }
    }

    /// The code of a key stands for that key, and for no other.
    pub proof fn lemma_code_round_trip(key: Key)
        ensures
            Key::spec_from_code(key.spec_code()) == key,
    {
    }
}

impl From<u8> for Key {
    fn from(val: u8) -> (r: Key) {
        Key::from_code(val)
    }
}

impl FromSpecImpl<u8> for Key {
    open spec fn obeys_from_spec() -> bool {
        true
    }

    open spec fn from_spec(val: u8) -> Key {
        Key::spec_from_code(val)
    }
}

impl From<Key> for u8 {
    fn from(key: Key) -> (r: u8) {
        key.code()
    }
}

impl FromSpecImpl<Key> for u8 {
    open spec fn obeys_from_spec() -> bool {
        true
    }

    open spec fn from_spec(key: Key) -> u8 {
        key.spec_code()
    }
}

} // verus!
