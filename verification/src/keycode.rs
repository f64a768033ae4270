use vstd::prelude::*;

verus! {

/// The identity of a physical or logical key, following the conventional
/// HID usage numbering for the keyboard page. The sub-range `LCtrl..=RGui`
/// (codes 0xE0..=0xE7) is reserved for the modifier keys; `NoKey` (code 0)
/// marks an empty report slot or an unassigned matrix cell.
#[derive(Clone, Copy, PartialEq, Eq, Structural, Debug)]
pub enum KeyCode {
    NoKey,
    ErrorRollOver,
    PostFail,
    ErrorUndefined,
    A,
    B,
    C,
    D,
    E,
    F,
    G,
    H,
    I,
    J,
    K,
    L,
    M,
    N,
    O,
    P,
    Q,
    R,
    S,
    T,
    U,
    V,
    W,
    X,
    Y,
    Z,
    Kb1,
    Kb2,
    Kb3,
    Kb4,
    Kb5,
    Kb6,
    Kb7,
    Kb8,
    Kb9,
    Kb0,
    Enter,
    Escape,
    BSpace,
    Tab,
    Space,
    Minus,
    Equal,
    LBracket,
    RBracket,
    Bslash,
    NonUsHash,
    SColon,
    Quote,
    Grave,
    Comma,
    Dot,
    Slash,
    CapsLock,
    F1,
    F2,
    F3,
    F4,
    F5,
    F6,
    F7,
    F8,
    F9,
    F10,
    F11,
    F12,
    PScreen,
    ScrollLock,
    Pause,
    Insert,
    Home,
    PgUp,
    Delete,
    End,
    PgDown,
    Right,
    Left,
    Down,
    Up,
    NumLock,
    KpSlash,
    KpAsterisk,
    KpMinus,
    KpPlus,
    KpEnter,
    Kp1,
    Kp2,
    Kp3,
    Kp4,
    Kp5,
    Kp6,
    Kp7,
    Kp8,
    Kp9,
    Kp0,
    KpDot,
    NonUsBslash,
    Application,
    Power,
    KpEqual,
    F13,
    F14,
    F15,
    F16,
    F17,
    F18,
    F19,
    F20,
    F21,
    F22,
    F23,
    F24,
    Execute,
    Help,
    Menu,
    Select,
    Stop,
    Again,
    Undo,
    Cut,
    Copy,
    Paste,
    Find,
    Mute,
    VolUp,
    VolDown,
    LockingCapsLock,
    LockingNumLock,
    LockingScrollLock,
    KpComma,
    KpEqualSign,
    Intl1,
    Intl2,
    Intl3,
    Intl4,
    Intl5,
    Intl6,
    Intl7,
    Intl8,
    Intl9,
    Lang1,
    Lang2,
    Lang3,
    Lang4,
    Lang5,
    Lang6,
    Lang7,
    Lang8,
    Lang9,
    AltErase,
    SysReq,
    Cancel,
    Clear,
    Prior,
    Return,
    Separator,
    Out,
    Oper,
    ClearAgain,
    CrSel,
    ExSel,
    LCtrl,
    LShift,
    LAlt,
    LGui,
    RCtrl,
    RShift,
    RAlt,
    RGui,
    MediaPlayPause,
    MediaStopCD,
    MediaPreviousSong,
    MediaNextSong,
    MediaEjectCD,
    MediaVolUp,
    MediaVolDown,
    MediaMute,
    MediaWWW,
    MediaBack,
    MediaForward,
    MediaStop,
    MediaFind,
    MediaScrollUp,
    MediaScrollDown,
    MediaEdit,
    MediaSleep,
    MediaCoffee,
    MediaRefresh,
    MediaCalc,
}

impl KeyCode {
    /// The wire code of this key: its position in the conventional numbering.
    pub open spec fn code_spec(self) -> u8 {
        match self {
            KeyCode::NoKey => 0x00,
            KeyCode::ErrorRollOver => 0x01,
            KeyCode::PostFail => 0x02,
            KeyCode::ErrorUndefined => 0x03,
            KeyCode::A => 0x04,
            KeyCode::B => 0x05,
            KeyCode::C => 0x06,
            KeyCode::D => 0x07,
            KeyCode::E => 0x08,
            KeyCode::F => 0x09,
            KeyCode::G => 0x0a,
            KeyCode::H => 0x0b,
            KeyCode::I => 0x0c,
            KeyCode::J => 0x0d,
            KeyCode::K => 0x0e,
            KeyCode::L => 0x0f,
            KeyCode::M => 0x10,
            KeyCode::N => 0x11,
            KeyCode::O => 0x12,
            KeyCode::P => 0x13,
            KeyCode::Q => 0x14,
            KeyCode::R => 0x15,
            KeyCode::S => 0x16,
            KeyCode::T => 0x17,
            KeyCode::U => 0x18,
            KeyCode::V => 0x19,
            KeyCode::W => 0x1a,
            KeyCode::X => 0x1b,
            KeyCode::Y => 0x1c,
            KeyCode::Z => 0x1d,
            KeyCode::Kb1 => 0x1e,
            KeyCode::Kb2 => 0x1f,
            KeyCode::Kb3 => 0x20,
            KeyCode::Kb4 => 0x21,
            KeyCode::Kb5 => 0x22,
            KeyCode::Kb6 => 0x23,
            KeyCode::Kb7 => 0x24,
            KeyCode::Kb8 => 0x25,
            KeyCode::Kb9 => 0x26,
            KeyCode::Kb0 => 0x27,
            KeyCode::Enter => 0x28,
            KeyCode::Escape => 0x29,
            KeyCode::BSpace => 0x2a,
            KeyCode::Tab => 0x2b,
            KeyCode::Space => 0x2c,
            KeyCode::Minus => 0x2d,
            KeyCode::Equal => 0x2e,
            KeyCode::LBracket => 0x2f,
            KeyCode::RBracket => 0x30,
            KeyCode::Bslash => 0x31,
            KeyCode::NonUsHash => 0x32,
            KeyCode::SColon => 0x33,
            KeyCode::Quote => 0x34,
            KeyCode::Grave => 0x35,
            KeyCode::Comma => 0x36,
            KeyCode::Dot => 0x37,
            KeyCode::Slash => 0x38,
            KeyCode::CapsLock => 0x39,
            KeyCode::F1 => 0x3a,
            KeyCode::F2 => 0x3b,
            KeyCode::F3 => 0x3c,
            KeyCode::F4 => 0x3d,
            KeyCode::F5 => 0x3e,
            KeyCode::F6 => 0x3f,
            KeyCode::F7 => 0x40,
            KeyCode::F8 => 0x41,
            KeyCode::F9 => 0x42,
            KeyCode::F10 => 0x43,
            KeyCode::F11 => 0x44,
            KeyCode::F12 => 0x45,
            KeyCode::PScreen => 0x46,
            KeyCode::ScrollLock => 0x47,
            KeyCode::Pause => 0x48,
            KeyCode::Insert => 0x49,
            KeyCode::Home => 0x4a,
            KeyCode::PgUp => 0x4b,
            KeyCode::Delete => 0x4c,
            KeyCode::End => 0x4d,
            KeyCode::PgDown => 0x4e,
            KeyCode::Right => 0x4f,
            KeyCode::Left => 0x50,
            KeyCode::Down => 0x51,
            KeyCode::Up => 0x52,
            KeyCode::NumLock => 0x53,
            KeyCode::KpSlash => 0x54,
            KeyCode::KpAsterisk => 0x55,
            KeyCode::KpMinus => 0x56,
            KeyCode::KpPlus => 0x57,
            KeyCode::KpEnter => 0x58,
            KeyCode::Kp1 => 0x59,
            KeyCode::Kp2 => 0x5a,
            KeyCode::Kp3 => 0x5b,
            KeyCode::Kp4 => 0x5c,
            KeyCode::Kp5 => 0x5d,
            KeyCode::Kp6 => 0x5e,
            KeyCode::Kp7 => 0x5f,
            KeyCode::Kp8 => 0x60,
            KeyCode::Kp9 => 0x61,
            KeyCode::Kp0 => 0x62,
            KeyCode::KpDot => 0x63,
            KeyCode::NonUsBslash => 0x64,
            KeyCode::Application => 0x65,
            KeyCode::Power => 0x66,
            KeyCode::KpEqual => 0x67,
            KeyCode::F13 => 0x68,
            KeyCode::F14 => 0x69,
            KeyCode::F15 => 0x6a,
            KeyCode::F16 => 0x6b,
            KeyCode::F17 => 0x6c,
            KeyCode::F18 => 0x6d,
            KeyCode::F19 => 0x6e,
            KeyCode::F20 => 0x6f,
            KeyCode::F21 => 0x70,
            KeyCode::F22 => 0x71,
            KeyCode::F23 => 0x72,
            KeyCode::F24 => 0x73,
            KeyCode::Execute => 0x74,
            KeyCode::Help => 0x75,
            KeyCode::Menu => 0x76,
            KeyCode::Select => 0x77,
            KeyCode::Stop => 0x78,
            KeyCode::Again => 0x79,
            KeyCode::Undo => 0x7a,
            KeyCode::Cut => 0x7b,
            KeyCode::Copy => 0x7c,
            KeyCode::Paste => 0x7d,
            KeyCode::Find => 0x7e,
            KeyCode::Mute => 0x7f,
            KeyCode::VolUp => 0x80,
            KeyCode::VolDown => 0x81,
            KeyCode::LockingCapsLock => 0x82,
            KeyCode::LockingNumLock => 0x83,
            KeyCode::LockingScrollLock => 0x84,
            KeyCode::KpComma => 0x85,
            KeyCode::KpEqualSign => 0x86,
            KeyCode::Intl1 => 0x87,
            KeyCode::Intl2 => 0x88,
            KeyCode::Intl3 => 0x89,
            KeyCode::Intl4 => 0x8a,
            KeyCode::Intl5 => 0x8b,
            KeyCode::Intl6 => 0x8c,
            KeyCode::Intl7 => 0x8d,
            KeyCode::Intl8 => 0x8e,
            KeyCode::Intl9 => 0x8f,
            KeyCode::Lang1 => 0x90,
            KeyCode::Lang2 => 0x91,
            KeyCode::Lang3 => 0x92,
            KeyCode::Lang4 => 0x93,
            KeyCode::Lang5 => 0x94,
            KeyCode::Lang6 => 0x95,
            KeyCode::Lang7 => 0x96,
            KeyCode::Lang8 => 0x97,
            KeyCode::Lang9 => 0x98,
            KeyCode::AltErase => 0x99,
            KeyCode::SysReq => 0x9a,
            KeyCode::Cancel => 0x9b,
            KeyCode::Clear => 0x9c,
            KeyCode::Prior => 0x9d,
            KeyCode::Return => 0x9e,
            KeyCode::Separator => 0x9f,
            KeyCode::Out => 0xa0,
            KeyCode::Oper => 0xa1,
            KeyCode::ClearAgain => 0xa2,
            KeyCode::CrSel => 0xa3,
            KeyCode::ExSel => 0xa4,
            KeyCode::LCtrl => 0xe0,
            KeyCode::LShift => 0xe1,
            KeyCode::LAlt => 0xe2,
            KeyCode::LGui => 0xe3,
            KeyCode::RCtrl => 0xe4,
            KeyCode::RShift => 0xe5,
            KeyCode::RAlt => 0xe6,
            KeyCode::RGui => 0xe7,
            KeyCode::MediaPlayPause => 0xe8,
            KeyCode::MediaStopCD => 0xe9,
            KeyCode::MediaPreviousSong => 0xea,
            KeyCode::MediaNextSong => 0xeb,
            KeyCode::MediaEjectCD => 0xec,
            KeyCode::MediaVolUp => 0xed,
            KeyCode::MediaVolDown => 0xee,
            KeyCode::MediaMute => 0xef,
            KeyCode::MediaWWW => 0xf0,
            KeyCode::MediaBack => 0xf1,
            KeyCode::MediaForward => 0xf2,
            KeyCode::MediaStop => 0xf3,
            KeyCode::MediaFind => 0xf4,
            KeyCode::MediaScrollUp => 0xf5,
            KeyCode::MediaScrollDown => 0xf6,
            KeyCode::MediaEdit => 0xf7,
            KeyCode::MediaSleep => 0xf8,
            KeyCode::MediaCoffee => 0xf9,
            KeyCode::MediaRefresh => 0xfa,
            KeyCode::MediaCalc => 0xfb,
        }
    }

    /// The wire code of this key, as sent in a report.
    pub fn code(self) -> (r: u8)
        ensures
            r == self.code_spec(),
    {
        match self {
            KeyCode::NoKey => 0x00,
            KeyCode::ErrorRollOver => 0x01,
            KeyCode::PostFail => 0x02,
            KeyCode::ErrorUndefined => 0x03,
            KeyCode::A => 0x04,
            KeyCode::B => 0x05,
            KeyCode::C => 0x06,
            KeyCode::D => 0x07,
            KeyCode::E => 0x08,
            KeyCode::F => 0x09,
            KeyCode::G => 0x0a,
            KeyCode::H => 0x0b,
            KeyCode::I => 0x0c,
            KeyCode::J => 0x0d,
            KeyCode::K => 0x0e,
            KeyCode::L => 0x0f,
            KeyCode::M => 0x10,
            KeyCode::N => 0x11,
            KeyCode::O => 0x12,
            KeyCode::P => 0x13,
            KeyCode::Q => 0x14,
            KeyCode::R => 0x15,
            KeyCode::S => 0x16,
            KeyCode::T => 0x17,
            KeyCode::U => 0x18,
            KeyCode::V => 0x19,
            KeyCode::W => 0x1a,
            KeyCode::X => 0x1b,
            KeyCode::Y => 0x1c,
            KeyCode::Z => 0x1d,
            KeyCode::Kb1 => 0x1e,
            KeyCode::Kb2 => 0x1f,
            KeyCode::Kb3 => 0x20,
            KeyCode::Kb4 => 0x21,
            KeyCode::Kb5 => 0x22,
            KeyCode::Kb6 => 0x23,
            KeyCode::Kb7 => 0x24,
            KeyCode::Kb8 => 0x25,
            KeyCode::Kb9 => 0x26,
            KeyCode::Kb0 => 0x27,
            KeyCode::Enter => 0x28,
            KeyCode::Escape => 0x29,
            KeyCode::BSpace => 0x2a,
            KeyCode::Tab => 0x2b,
            KeyCode::Space => 0x2c,
            KeyCode::Minus => 0x2d,
            KeyCode::Equal => 0x2e,
            KeyCode::LBracket => 0x2f,
            KeyCode::RBracket => 0x30,
            KeyCode::Bslash => 0x31,
            KeyCode::NonUsHash => 0x32,
            KeyCode::SColon => 0x33,
            KeyCode::Quote => 0x34,
            KeyCode::Grave => 0x35,
            KeyCode::Comma => 0x36,
            KeyCode::Dot => 0x37,
            KeyCode::Slash => 0x38,
            KeyCode::CapsLock => 0x39,
            KeyCode::F1 => 0x3a,
            KeyCode::F2 => 0x3b,
            KeyCode::F3 => 0x3c,
            KeyCode::F4 => 0x3d,
            KeyCode::F5 => 0x3e,
            KeyCode::F6 => 0x3f,
            KeyCode::F7 => 0x40,
            KeyCode::F8 => 0x41,
            KeyCode::F9 => 0x42,
            KeyCode::F10 => 0x43,
            KeyCode::F11 => 0x44,
            KeyCode::F12 => 0x45,
            KeyCode::PScreen => 0x46,
            KeyCode::ScrollLock => 0x47,
            KeyCode::Pause => 0x48,
            KeyCode::Insert => 0x49,
            KeyCode::Home => 0x4a,
            KeyCode::PgUp => 0x4b,
            KeyCode::Delete => 0x4c,
            KeyCode::End => 0x4d,
            KeyCode::PgDown => 0x4e,
            KeyCode::Right => 0x4f,
            KeyCode::Left => 0x50,
            KeyCode::Down => 0x51,
            KeyCode::Up => 0x52,
            KeyCode::NumLock => 0x53,
            KeyCode::KpSlash => 0x54,
            KeyCode::KpAsterisk => 0x55,
            KeyCode::KpMinus => 0x56,
            KeyCode::KpPlus => 0x57,
            KeyCode::KpEnter => 0x58,
            KeyCode::Kp1 => 0x59,
            KeyCode::Kp2 => 0x5a,
            KeyCode::Kp3 => 0x5b,
            KeyCode::Kp4 => 0x5c,
            KeyCode::Kp5 => 0x5d,
            KeyCode::Kp6 => 0x5e,
            KeyCode::Kp7 => 0x5f,
            KeyCode::Kp8 => 0x60,
            KeyCode::Kp9 => 0x61,
            KeyCode::Kp0 => 0x62,
            KeyCode::KpDot => 0x63,
            KeyCode::NonUsBslash => 0x64,
            KeyCode::Application => 0x65,
            KeyCode::Power => 0x66,
            KeyCode::KpEqual => 0x67,
            KeyCode::F13 => 0x68,
            KeyCode::F14 => 0x69,
            KeyCode::F15 => 0x6a,
            KeyCode::F16 => 0x6b,
            KeyCode::F17 => 0x6c,
            KeyCode::F18 => 0x6d,
            KeyCode::F19 => 0x6e,
            KeyCode::F20 => 0x6f,
            KeyCode::F21 => 0x70,
            KeyCode::F22 => 0x71,
            KeyCode::F23 => 0x72,
            KeyCode::F24 => 0x73,
            KeyCode::Execute => 0x74,
            KeyCode::Help => 0x75,
            KeyCode::Menu => 0x76,
            KeyCode::Select => 0x77,
            KeyCode::Stop => 0x78,
            KeyCode::Again => 0x79,
            KeyCode::Undo => 0x7a,
            KeyCode::Cut => 0x7b,
            KeyCode::Copy => 0x7c,
            KeyCode::Paste => 0x7d,
            KeyCode::Find => 0x7e,
            KeyCode::Mute => 0x7f,
            KeyCode::VolUp => 0x80,
            KeyCode::VolDown => 0x81,
            KeyCode::LockingCapsLock => 0x82,
            KeyCode::LockingNumLock => 0x83,
            KeyCode::LockingScrollLock => 0x84,
            KeyCode::KpComma => 0x85,
            KeyCode::KpEqualSign => 0x86,
            KeyCode::Intl1 => 0x87,
            KeyCode::Intl2 => 0x88,
            KeyCode::Intl3 => 0x89,
            KeyCode::Intl4 => 0x8a,
            KeyCode::Intl5 => 0x8b,
            KeyCode::Intl6 => 0x8c,
            KeyCode::Intl7 => 0x8d,
            KeyCode::Intl8 => 0x8e,
            KeyCode::Intl9 => 0x8f,
            KeyCode::Lang1 => 0x90,
            KeyCode::Lang2 => 0x91,
            KeyCode::Lang3 => 0x92,
            KeyCode::Lang4 => 0x93,
            KeyCode::Lang5 => 0x94,
            KeyCode::Lang6 => 0x95,
            KeyCode::Lang7 => 0x96,
            KeyCode::Lang8 => 0x97,
            KeyCode::Lang9 => 0x98,
            KeyCode::AltErase => 0x99,
            KeyCode::SysReq => 0x9a,
            KeyCode::Cancel => 0x9b,
            KeyCode::Clear => 0x9c,
            KeyCode::Prior => 0x9d,
            KeyCode::Return => 0x9e,
            KeyCode::Separator => 0x9f,
            KeyCode::Out => 0xa0,
            KeyCode::Oper => 0xa1,
            KeyCode::ClearAgain => 0xa2,
            KeyCode::CrSel => 0xa3,
            KeyCode::ExSel => 0xa4,
            KeyCode::LCtrl => 0xe0,
            KeyCode::LShift => 0xe1,
            KeyCode::LAlt => 0xe2,
            KeyCode::LGui => 0xe3,
            KeyCode::RCtrl => 0xe4,
            KeyCode::RShift => 0xe5,
            KeyCode::RAlt => 0xe6,
            KeyCode::RGui => 0xe7,
            KeyCode::MediaPlayPause => 0xe8,
            KeyCode::MediaStopCD => 0xe9,
            KeyCode::MediaPreviousSong => 0xea,
            KeyCode::MediaNextSong => 0xeb,
            KeyCode::MediaEjectCD => 0xec,
            KeyCode::MediaVolUp => 0xed,
            KeyCode::MediaVolDown => 0xee,
            KeyCode::MediaMute => 0xef,
            KeyCode::MediaWWW => 0xf0,
            KeyCode::MediaBack => 0xf1,
            KeyCode::MediaForward => 0xf2,
            KeyCode::MediaStop => 0xf3,
            KeyCode::MediaFind => 0xf4,
            KeyCode::MediaScrollUp => 0xf5,
            KeyCode::MediaScrollDown => 0xf6,
            KeyCode::MediaEdit => 0xf7,
            KeyCode::MediaSleep => 0xf8,
            KeyCode::MediaCoffee => 0xf9,
            KeyCode::MediaRefresh => 0xfa,
            KeyCode::MediaCalc => 0xfb,
        }
    }

    /// Whether `v` is the wire code of some key: the numbering covers
    /// 0x00..=0xA4 and 0xE0..=0xFB, with a gap in between.
    pub open spec fn valid_code(v: u8) -> bool {
        v <= 0xfb && !(0xa5 <= v && v <= 0xdf)
    }

    /// The key with wire code `v`; codes outside the numbering fall back
    /// to `NoKey`.
    pub fn from_code(v: u8) -> (r: KeyCode)
        ensures
            KeyCode::valid_code(v) ==> r.code_spec() == v,
            !KeyCode::valid_code(v) ==> r == KeyCode::NoKey,
    {
        match v {
            0x00 => KeyCode::NoKey,
            0x01 => KeyCode::ErrorRollOver,
            0x02 => KeyCode::PostFail,
            0x03 => KeyCode::ErrorUndefined,
            0x04 => KeyCode::A,
            0x05 => KeyCode::B,
            0x06 => KeyCode::C,
            0x07 => KeyCode::D,
            0x08 => KeyCode::E,
            0x09 => KeyCode::F,
            0x0a => KeyCode::G,
            0x0b => KeyCode::H,
            0x0c => KeyCode::I,
            0x0d => KeyCode::J,
            0x0e => KeyCode::K,
            0x0f => KeyCode::L,
            0x10 => KeyCode::M,
            0x11 => KeyCode::N,
            0x12 => KeyCode::O,
            0x13 => KeyCode::P,
            0x14 => KeyCode::Q,
            0x15 => KeyCode::R,
            0x16 => KeyCode::S,
            0x17 => KeyCode::T,
            0x18 => KeyCode::U,
            0x19 => KeyCode::V,
            0x1a => KeyCode::W,
            0x1b => KeyCode::X,
            0x1c => KeyCode::Y,
            0x1d => KeyCode::Z,
            0x1e => KeyCode::Kb1,
            0x1f => KeyCode::Kb2,
            0x20 => KeyCode::Kb3,
            0x21 => KeyCode::Kb4,
            0x22 => KeyCode::Kb5,
            0x23 => KeyCode::Kb6,
            0x24 => KeyCode::Kb7,
            0x25 => KeyCode::Kb8,
            0x26 => KeyCode::Kb9,
            0x27 => KeyCode::Kb0,
            0x28 => KeyCode::Enter,
            0x29 => KeyCode::Escape,
            0x2a => KeyCode::BSpace,
            0x2b => KeyCode::Tab,
            0x2c => KeyCode::Space,
            0x2d => KeyCode::Minus,
            0x2e => KeyCode::Equal,
            0x2f => KeyCode::LBracket,
            0x30 => KeyCode::RBracket,
            0x31 => KeyCode::Bslash,
            0x32 => KeyCode::NonUsHash,
            0x33 => KeyCode::SColon,
            0x34 => KeyCode::Quote,
            0x35 => KeyCode::Grave,
            0x36 => KeyCode::Comma,
            0x37 => KeyCode::Dot,
            0x38 => KeyCode::Slash,
            0x39 => KeyCode::CapsLock,
            0x3a => KeyCode::F1,
            0x3b => KeyCode::F2,
            0x3c => KeyCode::F3,
            0x3d => KeyCode::F4,
            0x3e => KeyCode::F5,
            0x3f => KeyCode::F6,
            0x40 => KeyCode::F7,
            0x41 => KeyCode::F8,
            0x42 => KeyCode::F9,
            0x43 => KeyCode::F10,
            0x44 => KeyCode::F11,
            0x45 => KeyCode::F12,
            0x46 => KeyCode::PScreen,
            0x47 => KeyCode::ScrollLock,
            0x48 => KeyCode::Pause,
            0x49 => KeyCode::Insert,
            0x4a => KeyCode::Home,
            0x4b => KeyCode::PgUp,
            0x4c => KeyCode::Delete,
            0x4d => KeyCode::End,
            0x4e => KeyCode::PgDown,
            0x4f => KeyCode::Right,
            0x50 => KeyCode::Left,
            0x51 => KeyCode::Down,
            0x52 => KeyCode::Up,
            0x53 => KeyCode::NumLock,
            0x54 => KeyCode::KpSlash,
            0x55 => KeyCode::KpAsterisk,
            0x56 => KeyCode::KpMinus,
            0x57 => KeyCode::KpPlus,
            0x58 => KeyCode::KpEnter,
            0x59 => KeyCode::Kp1,
            0x5a => KeyCode::Kp2,
            0x5b => KeyCode::Kp3,
            0x5c => KeyCode::Kp4,
            0x5d => KeyCode::Kp5,
            0x5e => KeyCode::Kp6,
            0x5f => KeyCode::Kp7,
            0x60 => KeyCode::Kp8,
            0x61 => KeyCode::Kp9,
            0x62 => KeyCode::Kp0,
            0x63 => KeyCode::KpDot,
            0x64 => KeyCode::NonUsBslash,
            0x65 => KeyCode::Application,
            0x66 => KeyCode::Power,
            0x67 => KeyCode::KpEqual,
            0x68 => KeyCode::F13,
            0x69 => KeyCode::F14,
            0x6a => KeyCode::F15,
            0x6b => KeyCode::F16,
            0x6c => KeyCode::F17,
            0x6d => KeyCode::F18,
            0x6e => KeyCode::F19,
            0x6f => KeyCode::F20,
            0x70 => KeyCode::F21,
            0x71 => KeyCode::F22,
            0x72 => KeyCode::F23,
            0x73 => KeyCode::F24,
            0x74 => KeyCode::Execute,
            0x75 => KeyCode::Help,
            0x76 => KeyCode::Menu,
            0x77 => KeyCode::Select,
            0x78 => KeyCode::Stop,
            0x79 => KeyCode::Again,
            0x7a => KeyCode::Undo,
            0x7b => KeyCode::Cut,
            0x7c => KeyCode::Copy,
            0x7d => KeyCode::Paste,
            0x7e => KeyCode::Find,
            0x7f => KeyCode::Mute,
            0x80 => KeyCode::VolUp,
            0x81 => KeyCode::VolDown,
            0x82 => KeyCode::LockingCapsLock,
            0x83 => KeyCode::LockingNumLock,
            0x84 => KeyCode::LockingScrollLock,
            0x85 => KeyCode::KpComma,
            0x86 => KeyCode::KpEqualSign,
            0x87 => KeyCode::Intl1,
            0x88 => KeyCode::Intl2,
            0x89 => KeyCode::Intl3,
            0x8a => KeyCode::Intl4,
            0x8b => KeyCode::Intl5,
            0x8c => KeyCode::Intl6,
            0x8d => KeyCode::Intl7,
            0x8e => KeyCode::Intl8,
            0x8f => KeyCode::Intl9,
            0x90 => KeyCode::Lang1,
            0x91 => KeyCode::Lang2,
            0x92 => KeyCode::Lang3,
            0x93 => KeyCode::Lang4,
            0x94 => KeyCode::Lang5,
            0x95 => KeyCode::Lang6,
            0x96 => KeyCode::Lang7,
            0x97 => KeyCode::Lang8,
            0x98 => KeyCode::Lang9,
            0x99 => KeyCode::AltErase,
            0x9a => KeyCode::SysReq,
            0x9b => KeyCode::Cancel,
            0x9c => KeyCode::Clear,
            0x9d => KeyCode::Prior,
            0x9e => KeyCode::Return,
            0x9f => KeyCode::Separator,
            0xa0 => KeyCode::Out,
            0xa1 => KeyCode::Oper,
            0xa2 => KeyCode::ClearAgain,
            0xa3 => KeyCode::CrSel,
            0xa4 => KeyCode::ExSel,
            0xe0 => KeyCode::LCtrl,
            0xe1 => KeyCode::LShift,
            0xe2 => KeyCode::LAlt,
            0xe3 => KeyCode::LGui,
            0xe4 => KeyCode::RCtrl,
            0xe5 => KeyCode::RShift,
            0xe6 => KeyCode::RAlt,
            0xe7 => KeyCode::RGui,
            0xe8 => KeyCode::MediaPlayPause,
            0xe9 => KeyCode::MediaStopCD,
            0xea => KeyCode::MediaPreviousSong,
            0xeb => KeyCode::MediaNextSong,
            0xec => KeyCode::MediaEjectCD,
            0xed => KeyCode::MediaVolUp,
            0xee => KeyCode::MediaVolDown,
            0xef => KeyCode::MediaMute,
            0xf0 => KeyCode::MediaWWW,
            0xf1 => KeyCode::MediaBack,
            0xf2 => KeyCode::MediaForward,
            0xf3 => KeyCode::MediaStop,
            0xf4 => KeyCode::MediaFind,
            0xf5 => KeyCode::MediaScrollUp,
            0xf6 => KeyCode::MediaScrollDown,
            0xf7 => KeyCode::MediaEdit,
            0xf8 => KeyCode::MediaSleep,
            0xf9 => KeyCode::MediaCoffee,
            0xfa => KeyCode::MediaRefresh,
            0xfb => KeyCode::MediaCalc,
            _ => KeyCode::NoKey,
        }
    }

    /// Whether this key lies in the modifier sub-range of the numbering.
    pub open spec fn is_modifier_spec(self) -> bool {
        0xe0 <= self.code_spec() && self.code_spec() <= 0xe7
    }

    /// Whether this key is a modifier (left/right control, shift, alt, gui).
    pub fn is_modifier(self) -> (r: bool)
        ensures
            r == self.is_modifier_spec(),
    {
        match self {
            KeyCode::LCtrl => true,
            KeyCode::LShift => true,
            KeyCode::LAlt => true,
            KeyCode::LGui => true,
            KeyCode::RCtrl => true,
            KeyCode::RShift => true,
            KeyCode::RAlt => true,
            KeyCode::RGui => true,
            _ => false,
        }
    }
}

impl Default for KeyCode {
    /// An unassigned key.
    fn default() -> (r: Self)
        ensures
            r == KeyCode::NoKey,
    {
        KeyCode::NoKey
    }
}

} // verus!
