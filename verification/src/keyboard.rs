use vstd::prelude::*;

verus! {

/// Number of distinct logical keys, and the length of each of the two
/// per-key tables kept by the input state machine.
pub const KEY_COUNT: usize = 121;

/// A logical keyboard key, independent of any windowing backend.
#[derive(Copy, Clone, PartialEq, Eq, Structural, Hash, Debug)]
pub enum Key {
    Space,
    Apostrophe,
    Comma,
    Minus,
    Period,
    Slash,
    Num0,
    Num1,
    Num2,
    Num3,
    Num4,
    Num5,
    Num6,
    Num7,
    Num8,
    Num9,
    Semicolon,
    Equal,
    A,
    B,
    C,
    D,
    E,
    F,
    G,
    H,
    I,
    J,
    K,
    L,
    M,
    N,
    O,
    P,
    Q,
    R,
    S,
    T,
    U,
    V,
    W,
    X,
    Y,
    Z,
    LeftBracket,
    Backslash,
    RightBracket,
    GraveAccent,
    World1,
    World2,
    Escape,
    Enter,
    Tab,
    Backspace,
    Insert,
    Delete,
    Right,
    Left,
    Down,
    Up,
    PageUp,
    PageDown,
    Home,
    End,
    CapsLock,
    ScrollLock,
    NumLock,
    PrintScreen,
    Pause,
    F1,
    F2,
    F3,
    F4,
    F5,
    F6,
    F7,
    F8,
    F9,
    F10,
    F11,
    F12,
    F13,
    F14,
    F15,
    F16,
    F17,
    F18,
    F19,
    F20,
    F21,
    F22,
    F23,
    F24,
    F25,
    Kp0,
    Kp1,
    Kp2,
    Kp3,
    Kp4,
    Kp5,
    Kp6,
    Kp7,
    Kp8,
    Kp9,
    KpDecimal,
    KpDivide,
    KpMultiply,
    KpSubtract,
    KpAdd,
    KpEnter,
    KpEqual,
    LeftShift,
    LeftControl,
    LeftAlt,
    LeftSuper,
    RightShift,
    RightControl,
    RightAlt,
    RightSuper,
    Menu,
    Unknown,
}

impl Key {
    /// The position of this key in the per-key state tables.
    pub open spec fn index_spec(self) -> int {
        match self {
            Key::Space => 0,
            Key::Apostrophe => 1,
            Key::Comma => 2,
            Key::Minus => 3,
            Key::Period => 4,
            Key::Slash => 5,
            Key::Num0 => 6,
            Key::Num1 => 7,
            Key::Num2 => 8,
            Key::Num3 => 9,
            Key::Num4 => 10,
            Key::Num5 => 11,
            Key::Num6 => 12,
            Key::Num7 => 13,
            Key::Num8 => 14,
            Key::Num9 => 15,
            Key::Semicolon => 16,
            Key::Equal => 17,
            Key::A => 18,
            Key::B => 19,
            Key::C => 20,
            Key::D => 21,
            Key::E => 22,
            Key::F => 23,
            Key::G => 24,
            Key::H => 25,
            Key::I => 26,
            Key::J => 27,
            Key::K => 28,
            Key::L => 29,
            Key::M => 30,
            Key::N => 31,
            Key::O => 32,
            Key::P => 33,
            Key::Q => 34,
            Key::R => 35,
            Key::S => 36,
            Key::T => 37,
            Key::U => 38,
            Key::V => 39,
            Key::W => 40,
            Key::X => 41,
            Key::Y => 42,
            Key::Z => 43,
            Key::LeftBracket => 44,
            Key::Backslash => 45,
            Key::RightBracket => 46,
            Key::GraveAccent => 47,
            Key::World1 => 48,
            Key::World2 => 49,
            Key::Escape => 50,
            Key::Enter => 51,
            Key::Tab => 52,
            Key::Backspace => 53,
            Key::Insert => 54,
            Key::Delete => 55,
            Key::Right => 56,
            Key::Left => 57,
            Key::Down => 58,
            Key::Up => 59,
            Key::PageUp => 60,
            Key::PageDown => 61,
            Key::Home => 62,
            Key::End => 63,
            Key::CapsLock => 64,
            Key::ScrollLock => 65,
            Key::NumLock => 66,
            Key::PrintScreen => 67,
            Key::Pause => 68,
            Key::F1 => 69,
            Key::F2 => 70,
            Key::F3 => 71,
            Key::F4 => 72,
            Key::F5 => 73,
            Key::F6 => 74,
            Key::F7 => 75,
            Key::F8 => 76,
            Key::F9 => 77,
            Key::F10 => 78,
            Key::F11 => 79,
            Key::F12 => 80,
            Key::F13 => 81,
            Key::F14 => 82,
            Key::F15 => 83,
            Key::F16 => 84,
            Key::F17 => 85,
            Key::F18 => 86,
            Key::F19 => 87,
            Key::F20 => 88,
            Key::F21 => 89,
            Key::F22 => 90,
            Key::F23 => 91,
            Key::F24 => 92,
            Key::F25 => 93,
            Key::Kp0 => 94,
            Key::Kp1 => 95,
            Key::Kp2 => 96,
            Key::Kp3 => 97,
            Key::Kp4 => 98,
            Key::Kp5 => 99,
            Key::Kp6 => 100,
            Key::Kp7 => 101,
            Key::Kp8 => 102,
            Key::Kp9 => 103,
            Key::KpDecimal => 104,
            Key::KpDivide => 105,
            Key::KpMultiply => 106,
            Key::KpSubtract => 107,
            Key::KpAdd => 108,
            Key::KpEnter => 109,
            Key::KpEqual => 110,
            Key::LeftShift => 111,
            Key::LeftControl => 112,
            Key::LeftAlt => 113,
            Key::LeftSuper => 114,
            Key::RightShift => 115,
            Key::RightControl => 116,
            Key::RightAlt => 117,
            Key::RightSuper => 118,
            Key::Menu => 119,
            Key::Unknown => 120,
        }
    }

    /// Table index of this key; every key maps below `KEY_COUNT`.
    pub fn index(self) -> (i: usize)
        ensures
            i as int == self.index_spec(),
            i < KEY_COUNT,
    {
        match self {
            Key::Space => 0,
            Key::Apostrophe => 1,
            Key::Comma => 2,
            Key::Minus => 3,
            Key::Period => 4,
            Key::Slash => 5,
            Key::Num0 => 6,
            Key::Num1 => 7,
            Key::Num2 => 8,
            Key::Num3 => 9,
            Key::Num4 => 10,
            Key::Num5 => 11,
            Key::Num6 => 12,
            Key::Num7 => 13,
            Key::Num8 => 14,
            Key::Num9 => 15,
            Key::Semicolon => 16,
            Key::Equal => 17,
            Key::A => 18,
            Key::B => 19,
            Key::C => 20,
            Key::D => 21,
            Key::E => 22,
            Key::F => 23,
            Key::G => 24,
            Key::H => 25,
            Key::I => 26,
            Key::J => 27,
            Key::K => 28,
            Key::L => 29,
            Key::M => 30,
            Key::N => 31,
            Key::O => 32,
            Key::P => 33,
            Key::Q => 34,
            Key::R => 35,
            Key::S => 36,
            Key::T => 37,
            Key::U => 38,
            Key::V => 39,
            Key::W => 40,
            Key::X => 41,
            Key::Y => 42,
            Key::Z => 43,
            Key::LeftBracket => 44,
            Key::Backslash => 45,
            Key::RightBracket => 46,
            Key::GraveAccent => 47,
            Key::World1 => 48,
            Key::World2 => 49,
            Key::Escape => 50,
            Key::Enter => 51,
            Key::Tab => 52,
            Key::Backspace => 53,
            Key::Insert => 54,
            Key::Delete => 55,
            Key::Right => 56,
            Key::Left => 57,
            Key::Down => 58,
            Key::Up => 59,
            Key::PageUp => 60,
            Key::PageDown => 61,
            Key::Home => 62,
            Key::End => 63,
            Key::CapsLock => 64,
            Key::ScrollLock => 65,
            Key::NumLock => 66,
            Key::PrintScreen => 67,
            Key::Pause => 68,
            Key::F1 => 69,
            Key::F2 => 70,
            Key::F3 => 71,
            Key::F4 => 72,
            Key::F5 => 73,
            Key::F6 => 74,
            Key::F7 => 75,
            Key::F8 => 76,
            Key::F9 => 77,
            Key::F10 => 78,
            Key::F11 => 79,
            Key::F12 => 80,
            Key::F13 => 81,
            Key::F14 => 82,
            Key::F15 => 83,
            Key::F16 => 84,
            Key::F17 => 85,
            Key::F18 => 86,
            Key::F19 => 87,
            Key::F20 => 88,
            Key::F21 => 89,
            Key::F22 => 90,
            Key::F23 => 91,
            Key::F24 => 92,
            Key::F25 => 93,
            Key::Kp0 => 94,
            Key::Kp1 => 95,
            Key::Kp2 => 96,
            Key::Kp3 => 97,
            Key::Kp4 => 98,
            Key::Kp5 => 99,
            Key::Kp6 => 100,
            Key::Kp7 => 101,
            Key::Kp8 => 102,
            Key::Kp9 => 103,
            Key::KpDecimal => 104,
            Key::KpDivide => 105,
            Key::KpMultiply => 106,
            Key::KpSubtract => 107,
            Key::KpAdd => 108,
            Key::KpEnter => 109,
            Key::KpEqual => 110,
            Key::LeftShift => 111,
            Key::LeftControl => 112,
            Key::LeftAlt => 113,
            Key::LeftSuper => 114,
            Key::RightShift => 115,
            Key::RightControl => 116,
            Key::RightAlt => 117,
            Key::RightSuper => 118,
            Key::Menu => 119,
            Key::Unknown => 120,
        }
    }
}

/// What a raw hardware event reported for a key: a release edge, a press
/// edge, or an auto-repeat while the key stays down. No ordering is implied;
/// only equality is ever used.
#[derive(Copy, Clone, PartialEq, Eq, Structural, Hash, Debug)]
pub enum Action {
    Release,
    Press,
    Repeat,
}

/// The modifier reported together with a raw key event.
#[derive(Copy, Clone, PartialEq, Eq, Structural, Hash, Debug)]
pub enum Modifier {
    Shift,
    Control,
    Alt,
    Super,
    CapsLock,
    NumLock,
    Unknown,
}

/// One entry of a per-key state table: the key it describes, the action most
/// recently recorded for it, and the modifier that came with that action.
#[derive(Copy, Clone, PartialEq, Eq, Structural, Hash, Debug)]
pub struct Button {
    pub key: Key,
    pub action: Action,
    pub modifier: Modifier,
}

/// The neutral state every table entry starts in: no key, released, no
/// modifier.
pub open spec fn neutral_button() -> Button {
    Button { key: Key::Unknown, action: Action::Release, modifier: Modifier::Unknown }
}

impl Button {
    pub fn new(key: Key, action: Action, modifier: Modifier) -> (r: Self)
        ensures
            r == (Button { key, action, modifier }),
    {
        Button { key, action, modifier }
    }

    pub fn key(&self) -> (r: &Key)
        ensures
            *r == self.key,
    {
        &self.key
    }

    pub fn set_key(&mut self, key: Key)
        ensures
            *final(self) == (Button { key, ..*old(self) }),
    {
        self.key = key;
    }

    pub fn action(&self) -> (r: &Action)
        ensures
            *r == self.action,
    {
        &self.action
    }

    pub fn set_action(&mut self, action: Action)
        ensures
            *final(self) == (Button { action, ..*old(self) }),
    {
        self.action = action;
    }

    pub fn modifier(&self) -> (r: &Modifier)
        ensures
            *r == self.modifier,
    {
        &self.modifier
    }

    pub fn set_modifier(&mut self, modifier: Modifier)
        ensures
            *final(self) == (Button { modifier, ..*old(self) }),
    {
        self.modifier = modifier;
    }

}

impl Default for Button {
    /// The neutral state: unknown key, released, no modifier.
    fn default() -> (r: Self)
        ensures
            r == neutral_button(),
    {
        Button { key: Key::Unknown, action: Action::Release, modifier: Modifier::Unknown }
    }
}

} // verus!
