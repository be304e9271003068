use vstd::prelude::*;

use crate::storage::{macro_new, macro_push, macro_sequence_contents, MacroSequence};

verus! {

/// Usage codes of the HID keyboard/keypad page, plus the markers this
/// firmware places in a keymap for the layer key, modifiers and macros.
#[derive(Clone, Copy, Debug, PartialEq, Eq, Hash, Structural)]
pub enum HidKeys {
    NoKey,
    Undefined,
    A,
    B,
    C,
    D,
    E,
    F,
    G,
    H,
    I,
    J,
    K,
    L,
    M,
    N,
    O,
    P,
    Q,
    R,
    S,
    T,
    U,
    V,
    W,
    X,
    Y,
    Z,
    Num1,
    Num2,
    Num3,
    Num4,
    Num5,
    Num6,
    Num7,
    Num8,
    Num9,
    Num0,
    Enter,
    Escape,
    Bspace,
    Tab,
    Space,
    Minus,
    Equal,
    Lbracket, /* [ and { */
    Rbracket, /* ] and } */
    Backslash, /* \ (and |) */
    NonusHash, /* Non-US # and ~ (Typically near the Enter key) */
    SemiColon, /* ; (and :) */
    Quote, /* ' and " */
    Grave, /* Grave accent and tilde */
    Comma, /*  =  and < */
    Period, /* . and > */
    Slash, /* / and ? */
    Capslock,
    F1,
    F2,
    F3,
    F4,
    F5,
    F6,
    F7,
    F8,
    F9,
    F10,
    F11,
    F12,
    Pscreen,
    Scrolllock,
    Pause,
    Insert,
    Home,
    Pgup,
    Delete,
    End,
    Pgdown,
    Right,
    Left,
    Down,
    Up,
    Numlock,
    KpSlash,
    KpAsterisk,
    KpMinus,
    KpPlus,
    KpEnter,
    Kp1,
    Kp2,
    Kp3,
    Kp4,
    Kp5,
    Kp6,
    Kp7,
    Kp8,
    Kp9,
    Kp0,
    KpDot,
    NonusBslash, /* Non-US \ and | (Typically near the Left-Shift key) */
    Application,
    Power,
    KpEqual,
    F13,
    F14,
    F15,
    F16,
    F17,
    F18,
    F19,
    F20,
    F21,
    F22,
    F23,
    F24,
    Execute,
    Help,
    Menu,
    Select,
    Stop,
    Again,
    Undo,
    Cut,
    Copy,
    Paste,
    Find,
    Mute,
    Volup,
    Voldown,
    LockingCaps, /* locking Caps Lock */
    LockingNum, /* locking Num Lock */
    LockingScroll, /* locking Scroll Lock */
    KpComma,
    KpEqualAs400, /* equal sign on AS/400 */
    Int1,
    Int2,
    Int3,
    Int4,
    Int5,
    Int6,
    Int7,
    Int8,
    Int9,
    Lang1,
    Lang2,
    Lang3,
    Lang4,
    Lang5,
    Lang6,
    Lang7,
    Lang8,
    Lang9,
    AltErase,
    Sysreq,
    Cancel,
    Clear,
    Prior,
    Return,
    Separator,
    Out,
    Oper,
    ClearAgain,
    Crsel,
    Exsel,

    /* marker: layer */
    LayerKey,

    /* marker: modifiers */
    ModifierShift,
    ModifierControl,
    ModifierAlt,
    ModifierSuper,

    /* marker: macros */
    MacroOpenedBracket,
    MacroClosedBracket,
    MacroCopy,
    MacroPaste,
    MacroExclamationMark,
    MacroAt,
    MacroHash,
    MacroDollar,
    MacroModul,
    MacroCaret,
    MacroAmpersand,
    MacroAsterix,
}

/// The byte that stands for a key in a report (or the marker's byte).
pub open spec fn hid_code(k: HidKeys) -> u8 {
    match k {
        HidKeys::NoKey => 0x00,
        HidKeys::Undefined => 0x03,
        HidKeys::A => 0x04,
        HidKeys::B => 0x05,
        HidKeys::C => 0x06,
        HidKeys::D => 0x07,
        HidKeys::E => 0x08,
        HidKeys::F => 0x09,
        HidKeys::G => 0x0A,
        HidKeys::H => 0x0B,
        HidKeys::I => 0x0C,
        HidKeys::J => 0x0D,
        HidKeys::K => 0x0E,
        HidKeys::L => 0x0F,
        HidKeys::M => 0x10,
        HidKeys::N => 0x11,
        HidKeys::O => 0x12,
        HidKeys::P => 0x13,
        HidKeys::Q => 0x14,
        HidKeys::R => 0x15,
        HidKeys::S => 0x16,
        HidKeys::T => 0x17,
        HidKeys::U => 0x18,
        HidKeys::V => 0x19,
        HidKeys::W => 0x1A,
        HidKeys::X => 0x1B,
        HidKeys::Y => 0x1C,
        HidKeys::Z => 0x1D,
        HidKeys::Num1 => 0x1E,
        HidKeys::Num2 => 0x1F,
        HidKeys::Num3 => 0x20,
        HidKeys::Num4 => 0x21,
        HidKeys::Num5 => 0x22,
        HidKeys::Num6 => 0x23,
        HidKeys::Num7 => 0x24,
        HidKeys::Num8 => 0x25,
        HidKeys::Num9 => 0x26,
        HidKeys::Num0 => 0x27,
        HidKeys::Enter => 0x28,
        HidKeys::Escape => 0x29,
        HidKeys::Bspace => 0x2A,
        HidKeys::Tab => 0x2B,
        HidKeys::Space => 0x2C,
        HidKeys::Minus => 0x2D,
        HidKeys::Equal => 0x2E,
        HidKeys::Lbracket => 0x2F,
        HidKeys::Rbracket => 0x30,
        HidKeys::Backslash => 0x31,
        HidKeys::NonusHash => 0x32,
        HidKeys::SemiColon => 0x33,
        HidKeys::Quote => 0x34,
        HidKeys::Grave => 0x35,
        HidKeys::Comma => 0x36,
        HidKeys::Period => 0x37,
        HidKeys::Slash => 0x38,
        HidKeys::Capslock => 0x39,
        HidKeys::F1 => 0x3A,
        HidKeys::F2 => 0x3B,
        HidKeys::F3 => 0x3C,
        HidKeys::F4 => 0x3D,
        HidKeys::F5 => 0x3E,
        HidKeys::F6 => 0x3F,
        HidKeys::F7 => 0x40,
        HidKeys::F8 => 0x41,
        HidKeys::F9 => 0x42,
        HidKeys::F10 => 0x43,
        HidKeys::F11 => 0x44,
        HidKeys::F12 => 0x45,
        HidKeys::Pscreen => 0x46,
        HidKeys::Scrolllock => 0x47,
        HidKeys::Pause => 0x48,
        HidKeys::Insert => 0x49,
        HidKeys::Home => 0x4A,
        HidKeys::Pgup => 0x4B,
        HidKeys::Delete => 0x4C,
        HidKeys::End => 0x4D,
        HidKeys::Pgdown => 0x4E,
        HidKeys::Right => 0x4F,
        HidKeys::Left => 0x50,
        HidKeys::Down => 0x51,
        HidKeys::Up => 0x52,
        HidKeys::Numlock => 0x53,
        HidKeys::KpSlash => 0x54,
        HidKeys::KpAsterisk => 0x55,
        HidKeys::KpMinus => 0x56,
        HidKeys::KpPlus => 0x57,
        HidKeys::KpEnter => 0x58,
        HidKeys::Kp1 => 0x59,
        HidKeys::Kp2 => 0x5A,
        HidKeys::Kp3 => 0x5B,
        HidKeys::Kp4 => 0x5C,
        HidKeys::Kp5 => 0x5D,
        HidKeys::Kp6 => 0x5E,
        HidKeys::Kp7 => 0x5F,
        HidKeys::Kp8 => 0x60,
        HidKeys::Kp9 => 0x61,
        HidKeys::Kp0 => 0x62,
        HidKeys::KpDot => 0x63,
        HidKeys::NonusBslash => 0x64,
        HidKeys::Application => 0x65,
        HidKeys::Power => 0x66,
        HidKeys::KpEqual => 0x67,
        HidKeys::F13 => 0x68,
        HidKeys::F14 => 0x69,
        HidKeys::F15 => 0x6A,
        HidKeys::F16 => 0x6B,
        HidKeys::F17 => 0x6C,
        HidKeys::F18 => 0x6D,
        HidKeys::F19 => 0x6E,
        HidKeys::F20 => 0x6F,
        HidKeys::F21 => 0x70,
        HidKeys::F22 => 0x71,
        HidKeys::F23 => 0x72,
        HidKeys::F24 => 0x73,
        HidKeys::Execute => 0x74,
        HidKeys::Help => 0x75,
        HidKeys::Menu => 0x76,
        HidKeys::Select => 0x77,
        HidKeys::Stop => 0x78,
        HidKeys::Again => 0x79,
        HidKeys::Undo => 0x7A,
        HidKeys::Cut => 0x7B,
        HidKeys::Copy => 0x7C,
        HidKeys::Paste => 0x7D,
        HidKeys::Find => 0x7E,
        HidKeys::Mute => 0x7F,
        HidKeys::Volup => 0x80,
        HidKeys::Voldown => 0x81,
        HidKeys::LockingCaps => 0x82,
        HidKeys::LockingNum => 0x83,
        HidKeys::LockingScroll => 0x84,
        HidKeys::KpComma => 0x85,
        HidKeys::KpEqualAs400 => 0x86,
        HidKeys::Int1 => 0x87,
        HidKeys::Int2 => 0x88,
        HidKeys::Int3 => 0x89,
        HidKeys::Int4 => 0x8A,
        HidKeys::Int5 => 0x8B,
        HidKeys::Int6 => 0x8C,
        HidKeys::Int7 => 0x8D,
        HidKeys::Int8 => 0x8E,
        HidKeys::Int9 => 0x8F,
        HidKeys::Lang1 => 0x90,
        HidKeys::Lang2 => 0x91,
        HidKeys::Lang3 => 0x92,
        HidKeys::Lang4 => 0x93,
        HidKeys::Lang5 => 0x94,
        HidKeys::Lang6 => 0x95,
        HidKeys::Lang7 => 0x96,
        HidKeys::Lang8 => 0x97,
        HidKeys::Lang9 => 0x98,
        HidKeys::AltErase => 0x99,
        HidKeys::Sysreq => 0x9A,
        HidKeys::Cancel => 0x9B,
        HidKeys::Clear => 0x9C,
        HidKeys::Prior => 0x9D,
        HidKeys::Return => 0x9E,
        HidKeys::Separator => 0x9F,
        HidKeys::Out => 0xA0,
        HidKeys::Oper => 0xA1,
        HidKeys::ClearAgain => 0xA2,
        HidKeys::Crsel => 0xA3,
        HidKeys::Exsel => 0xA4,
        HidKeys::LayerKey => 0xA5,
        HidKeys::ModifierShift => 0xB1,
        HidKeys::ModifierControl => 0xB2,
        HidKeys::ModifierAlt => 0xB3,
        HidKeys::ModifierSuper => 0xB4,
        HidKeys::MacroOpenedBracket => 0xC1,
        HidKeys::MacroClosedBracket => 0xC2,
        HidKeys::MacroCopy => 0xC3,
        HidKeys::MacroPaste => 0xC4,
        HidKeys::MacroExclamationMark => 0xC5,
        HidKeys::MacroAt => 0xC6,
        HidKeys::MacroHash => 0xC7,
        HidKeys::MacroDollar => 0xC8,
        HidKeys::MacroModul => 0xC9,
        HidKeys::MacroCaret => 0xD0,
        HidKeys::MacroAmpersand => 0xD1,
        HidKeys::MacroAsterix => 0xD2,
    }
}

impl HidKeys {
    /// The byte of this key, as `hid_code` gives it.
    pub fn code(&self) -> (r: u8)
        ensures
            r == hid_code(*self),
    {
        match self {
            HidKeys::NoKey => 0x00,
            HidKeys::Undefined => 0x03,
            HidKeys::A => 0x04,
            HidKeys::B => 0x05,
            HidKeys::C => 0x06,
            HidKeys::D => 0x07,
            HidKeys::E => 0x08,
            HidKeys::F => 0x09,
            HidKeys::G => 0x0A,
            HidKeys::H => 0x0B,
            HidKeys::I => 0x0C,
            HidKeys::J => 0x0D,
            HidKeys::K => 0x0E,
            HidKeys::L => 0x0F,
            HidKeys::M => 0x10,
            HidKeys::N => 0x11,
            HidKeys::O => 0x12,
            HidKeys::P => 0x13,
            HidKeys::Q => 0x14,
            HidKeys::R => 0x15,
            HidKeys::S => 0x16,
            HidKeys::T => 0x17,
            HidKeys::U => 0x18,
            HidKeys::V => 0x19,
            HidKeys::W => 0x1A,
            HidKeys::X => 0x1B,
            HidKeys::Y => 0x1C,
            HidKeys::Z => 0x1D,
            HidKeys::Num1 => 0x1E,
            HidKeys::Num2 => 0x1F,
            HidKeys::Num3 => 0x20,
            HidKeys::Num4 => 0x21,
            HidKeys::Num5 => 0x22,
            HidKeys::Num6 => 0x23,
            HidKeys::Num7 => 0x24,
            HidKeys::Num8 => 0x25,
            HidKeys::Num9 => 0x26,
            HidKeys::Num0 => 0x27,
            HidKeys::Enter => 0x28,
            HidKeys::Escape => 0x29,
            HidKeys::Bspace => 0x2A,
            HidKeys::Tab => 0x2B,
            HidKeys::Space => 0x2C,
            HidKeys::Minus => 0x2D,
            HidKeys::Equal => 0x2E,
            HidKeys::Lbracket => 0x2F,
            HidKeys::Rbracket => 0x30,
            HidKeys::Backslash => 0x31,
            HidKeys::NonusHash => 0x32,
            HidKeys::SemiColon => 0x33,
            HidKeys::Quote => 0x34,
            HidKeys::Grave => 0x35,
            HidKeys::Comma => 0x36,
            HidKeys::Period => 0x37,
            HidKeys::Slash => 0x38,
            HidKeys::Capslock => 0x39,
            HidKeys::F1 => 0x3A,
            HidKeys::F2 => 0x3B,
            HidKeys::F3 => 0x3C,
            HidKeys::F4 => 0x3D,
            HidKeys::F5 => 0x3E,
            HidKeys::F6 => 0x3F,
            HidKeys::F7 => 0x40,
            HidKeys::F8 => 0x41,
            HidKeys::F9 => 0x42,
            HidKeys::F10 => 0x43,
            HidKeys::F11 => 0x44,
            HidKeys::F12 => 0x45,
            HidKeys::Pscreen => 0x46,
            HidKeys::Scrolllock => 0x47,
            HidKeys::Pause => 0x48,
            HidKeys::Insert => 0x49,
            HidKeys::Home => 0x4A,
            HidKeys::Pgup => 0x4B,
            HidKeys::Delete => 0x4C,
            HidKeys::End => 0x4D,
            HidKeys::Pgdown => 0x4E,
            HidKeys::Right => 0x4F,
            HidKeys::Left => 0x50,
            HidKeys::Down => 0x51,
            HidKeys::Up => 0x52,
            HidKeys::Numlock => 0x53,
            HidKeys::KpSlash => 0x54,
            HidKeys::KpAsterisk => 0x55,
            HidKeys::KpMinus => 0x56,
            HidKeys::KpPlus => 0x57,
            HidKeys::KpEnter => 0x58,
            HidKeys::Kp1 => 0x59,
            HidKeys::Kp2 => 0x5A,
            HidKeys::Kp3 => 0x5B,
            HidKeys::Kp4 => 0x5C,
            HidKeys::Kp5 => 0x5D,
            HidKeys::Kp6 => 0x5E,
            HidKeys::Kp7 => 0x5F,
            HidKeys::Kp8 => 0x60,
            HidKeys::Kp9 => 0x61,
            HidKeys::Kp0 => 0x62,
            HidKeys::KpDot => 0x63,
            HidKeys::NonusBslash => 0x64,
            HidKeys::Application => 0x65,
            HidKeys::Power => 0x66,
            HidKeys::KpEqual => 0x67,
            HidKeys::F13 => 0x68,
            HidKeys::F14 => 0x69,
            HidKeys::F15 => 0x6A,
            HidKeys::F16 => 0x6B,
            HidKeys::F17 => 0x6C,
            HidKeys::F18 => 0x6D,
            HidKeys::F19 => 0x6E,
            HidKeys::F20 => 0x6F,
            HidKeys::F21 => 0x70,
            HidKeys::F22 => 0x71,
            HidKeys::F23 => 0x72,
            HidKeys::F24 => 0x73,
            HidKeys::Execute => 0x74,
            HidKeys::Help => 0x75,
            HidKeys::Menu => 0x76,
            HidKeys::Select => 0x77,
            HidKeys::Stop => 0x78,
            HidKeys::Again => 0x79,
            HidKeys::Undo => 0x7A,
            HidKeys::Cut => 0x7B,
            HidKeys::Copy => 0x7C,
            HidKeys::Paste => 0x7D,
            HidKeys::Find => 0x7E,
            HidKeys::Mute => 0x7F,
            HidKeys::Volup => 0x80,
            HidKeys::Voldown => 0x81,
            HidKeys::LockingCaps => 0x82,
            HidKeys::LockingNum => 0x83,
            HidKeys::LockingScroll => 0x84,
            HidKeys::KpComma => 0x85,
            HidKeys::KpEqualAs400 => 0x86,
            HidKeys::Int1 => 0x87,
            HidKeys::Int2 => 0x88,
            HidKeys::Int3 => 0x89,
            HidKeys::Int4 => 0x8A,
            HidKeys::Int5 => 0x8B,
            HidKeys::Int6 => 0x8C,
            HidKeys::Int7 => 0x8D,
            HidKeys::Int8 => 0x8E,
            HidKeys::Int9 => 0x8F,
            HidKeys::Lang1 => 0x90,
            HidKeys::Lang2 => 0x91,
            HidKeys::Lang3 => 0x92,
            HidKeys::Lang4 => 0x93,
            HidKeys::Lang5 => 0x94,
            HidKeys::Lang6 => 0x95,
            HidKeys::Lang7 => 0x96,
            HidKeys::Lang8 => 0x97,
            HidKeys::Lang9 => 0x98,
            HidKeys::AltErase => 0x99,
            HidKeys::Sysreq => 0x9A,
            HidKeys::Cancel => 0x9B,
            HidKeys::Clear => 0x9C,
            HidKeys::Prior => 0x9D,
            HidKeys::Return => 0x9E,
            HidKeys::Separator => 0x9F,
            HidKeys::Out => 0xA0,
            HidKeys::Oper => 0xA1,
            HidKeys::ClearAgain => 0xA2,
            HidKeys::Crsel => 0xA3,
            HidKeys::Exsel => 0xA4,
            HidKeys::LayerKey => 0xA5,
            HidKeys::ModifierShift => 0xB1,
            HidKeys::ModifierControl => 0xB2,
            HidKeys::ModifierAlt => 0xB3,
            HidKeys::ModifierSuper => 0xB4,
            HidKeys::MacroOpenedBracket => 0xC1,
            HidKeys::MacroClosedBracket => 0xC2,
            HidKeys::MacroCopy => 0xC3,
            HidKeys::MacroPaste => 0xC4,
            HidKeys::MacroExclamationMark => 0xC5,
            HidKeys::MacroAt => 0xC6,
            HidKeys::MacroHash => 0xC7,
            HidKeys::MacroDollar => 0xC8,
            HidKeys::MacroModul => 0xC9,
            HidKeys::MacroCaret => 0xD0,
            HidKeys::MacroAmpersand => 0xD1,
            HidKeys::MacroAsterix => 0xD2,
        }
    }
}
/// How the transmitter treats a keymap entry.
#[derive(Clone, Copy, Debug, PartialEq, Eq, Structural)]
pub enum KeyType {
    Macro,
    Modifier,
    Key,
    Layer,
}

/// The kind of a keymap entry: macro, modifier, the layer marker, or a plain key.
pub open spec fn key_type_of(k: HidKeys) -> KeyType {
    match k {
        HidKeys::MacroOpenedBracket | HidKeys::MacroClosedBracket | HidKeys::MacroCopy
        | HidKeys::MacroPaste | HidKeys::MacroExclamationMark | HidKeys::MacroAt
        | HidKeys::MacroHash | HidKeys::MacroDollar | HidKeys::MacroModul | HidKeys::MacroCaret
        | HidKeys::MacroAmpersand | HidKeys::MacroAsterix => KeyType::Macro,
        HidKeys::LayerKey => KeyType::Layer,
        HidKeys::ModifierShift | HidKeys::ModifierControl | HidKeys::ModifierAlt
        | HidKeys::ModifierSuper => KeyType::Modifier,
        _ => KeyType::Key,
    }
}

impl KeyType {
    pub fn check_type(key: &HidKeys) -> (r: KeyType)
        ensures
            r == key_type_of(*key),
    {
        match *key {
            HidKeys::MacroOpenedBracket | HidKeys::MacroClosedBracket | HidKeys::MacroCopy
            | HidKeys::MacroPaste | HidKeys::MacroExclamationMark | HidKeys::MacroAt
            | HidKeys::MacroHash | HidKeys::MacroDollar | HidKeys::MacroModul
            | HidKeys::MacroCaret | HidKeys::MacroAmpersand | HidKeys::MacroAsterix => {
                KeyType::Macro
            },
            HidKeys::LayerKey => KeyType::Layer,
            HidKeys::ModifierShift | HidKeys::ModifierControl | HidKeys::ModifierAlt
            | HidKeys::ModifierSuper => KeyType::Modifier,
            _ => KeyType::Key,
        }
    }
}

/// The modifier bits of the first byte of a boot-keyboard report.
#[derive(Clone, Copy, Debug, PartialEq, Eq, Structural)]
pub enum HidModifiers {
    NoModifier,
    Control,
    Shift,
    Alt,
    Super,
}

/// The bit of a modifier in the report's modifier byte.
pub open spec fn modifier_bits(m: HidModifiers) -> u8 {
    match m {
        HidModifiers::NoModifier => 0x00,
        HidModifiers::Control => 0x01,
        HidModifiers::Shift => 0x02,
        HidModifiers::Alt => 0x04,
        HidModifiers::Super => 0x08,
    }
}

/// The modifier bit that a keymap entry sets: none but for the modifier markers.
pub open spec fn modifier_bit(k: HidKeys) -> u8 {
    match k {
        HidKeys::ModifierShift => modifier_bits(HidModifiers::Shift),
        HidKeys::ModifierControl => modifier_bits(HidModifiers::Control),
        HidKeys::ModifierAlt => modifier_bits(HidModifiers::Alt),
        HidKeys::ModifierSuper => modifier_bits(HidModifiers::Super),
        _ => 0,
    }
}

impl HidModifiers {
    /// The bit of this modifier, as `modifier_bits` gives it.
    pub fn bits(&self) -> (r: u8)
        ensures
            r == modifier_bits(*self),
    {
        match self {
            HidModifiers::NoModifier => 0x00,
            HidModifiers::Control => 0x01,
            HidModifiers::Shift => 0x02,
            HidModifiers::Alt => 0x04,
            HidModifiers::Super => 0x08,
        }
    }

    pub fn get_modifier(key: &HidKeys) -> (r: u8)
        ensures
            r == modifier_bit(*key),
    {
        match *key {
            HidKeys::ModifierShift => HidModifiers::Shift.bits(),
            HidKeys::ModifierControl => HidModifiers::Control.bits(),
            HidKeys::ModifierAlt => HidModifiers::Alt.bits(),
            HidKeys::ModifierSuper => HidModifiers::Super.bits(),
            _ => 0,
        }
    }
}

/// The modifier and key that a macro key types; empty for any other key.
pub open spec fn macro_sequence(k: HidKeys) -> Seq<HidKeys> {
    match k {
        HidKeys::MacroCopy => seq![HidKeys::ModifierControl, HidKeys::C],
        HidKeys::MacroPaste => seq![HidKeys::ModifierControl, HidKeys::V],
        HidKeys::MacroClosedBracket => seq![HidKeys::ModifierShift, HidKeys::Num0],
        HidKeys::MacroExclamationMark => seq![HidKeys::ModifierShift, HidKeys::Num1],
        HidKeys::MacroAt => seq![HidKeys::ModifierShift, HidKeys::Num2],
        HidKeys::MacroHash => seq![HidKeys::ModifierShift, HidKeys::Num3],
        HidKeys::MacroDollar => seq![HidKeys::ModifierShift, HidKeys::Num4],
        HidKeys::MacroModul => seq![HidKeys::ModifierShift, HidKeys::Num5],
        HidKeys::MacroCaret => seq![HidKeys::ModifierShift, HidKeys::Num6],
        HidKeys::MacroAmpersand => seq![HidKeys::ModifierShift, HidKeys::Num7],
        HidKeys::MacroAsterix => seq![HidKeys::ModifierShift, HidKeys::Num8],
        HidKeys::MacroOpenedBracket => seq![HidKeys::ModifierShift, HidKeys::Num9],
        _ => Seq::empty(),
    }
}

/// A sequence of a modifier followed by a key.
fn modifier_then_key(modifier: HidKeys, key: HidKeys) -> (r: MacroSequence)
    ensures
        macro_sequence_contents(r) == seq![modifier, key],
{
    let mut v = macro_new();
    let _ = macro_push(&mut v, modifier);
    let _ = macro_push(&mut v, key);
    proof {
        assert(macro_sequence_contents(v) =~= seq![modifier, key]);
    }
    v
}

impl HidKeys {
    pub fn get_macro_sequence(key: &HidKeys) -> (r: MacroSequence)
        ensures
            macro_sequence_contents(r) == macro_sequence(*key),
    {
        match key {
            HidKeys::MacroCopy => modifier_then_key(HidKeys::ModifierControl, HidKeys::C),
            HidKeys::MacroPaste => modifier_then_key(HidKeys::ModifierControl, HidKeys::V),
            HidKeys::MacroClosedBracket => modifier_then_key(HidKeys::ModifierShift, HidKeys::Num0),
            HidKeys::MacroExclamationMark => modifier_then_key(
                HidKeys::ModifierShift,
                HidKeys::Num1,
            ),
            HidKeys::MacroAt => modifier_then_key(HidKeys::ModifierShift, HidKeys::Num2),
            HidKeys::MacroHash => modifier_then_key(HidKeys::ModifierShift, HidKeys::Num3),
            HidKeys::MacroDollar => modifier_then_key(HidKeys::ModifierShift, HidKeys::Num4),
            HidKeys::MacroModul => modifier_then_key(HidKeys::ModifierShift, HidKeys::Num5),
            HidKeys::MacroCaret => modifier_then_key(HidKeys::ModifierShift, HidKeys::Num6),
            HidKeys::MacroAmpersand => modifier_then_key(HidKeys::ModifierShift, HidKeys::Num7),
            HidKeys::MacroAsterix => modifier_then_key(HidKeys::ModifierShift, HidKeys::Num8),
            HidKeys::MacroOpenedBracket => modifier_then_key(HidKeys::ModifierShift, HidKeys::Num9),
            _ => macro_new(),
        }
    }
}

} // verus!
