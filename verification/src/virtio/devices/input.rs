//! The VirtIO input device: configuration selectors and the events it
//! reports, turned into key presses and releases.
use vstd::prelude::*;
use crate::usb_msc::le32_at;

verus! {

/// Event type: synchronisation marker.
pub const EV_SYN: u16 = 0;
/// Event type: key or button.
pub const EV_KEY: u16 = 1;
/// Size of the configuration data area.
pub const CFG_DATA_MAX: usize = 128;

/// A key of the keyboard, as the GUI names it.
#[derive(Copy, Clone, Debug, PartialEq, Eq, Structural)]
pub enum KeyCode {
    NoKey,
    Esc,
    Kb1,
    Kb2,
    Kb3,
    Kb4,
    Kb5,
    Kb6,
    Kb7,
    Kb8,
    Kb9,
    Kb0,
    Minus,
    Equals,
    Backsp,
    Tab,
    Q,
    W,
    E,
    R,
    T,
    Y,
    U,
    I,
    O,
    P,
    SquareOpen,
    SquareClose,
    Return,
    LeftCtrl,
    A,
    S,
    D,
    F,
    G,
    H,
    J,
    K,
    L,
    Semicolon,
    Quote,
    GraveTilde,
    LeftShift,
    Backslash,
    Z,
    X,
    C,
    V,
    B,
    N,
    M,
    Comma,
    Period,
    Slash,
    RightShift,
    KpStar,
    LeftAlt,
    Space,
    Caps,
    F1,
    F2,
    F3,
    F4,
    F5,
    F6,
    F7,
    F8,
    F9,
    F10,
    Numlock,
    ScrollLock,
    Kp7,
    Kp8,
    Kp9,
    KpMinus,
    Kp4,
    Kp5,
    Kp6,
    KpPlus,
    Kp1,
    Kp2,
    Kp3,
    Kp0,
    KpPeriod,
    F11,
    F12,
    KpEnter,
    RightCtrl,
    KpSlash,
    SysRq,
    RightAlt,
    Home,
    UpArrow,
    PgUp,
    LeftArrow,
    RightArrow,
    End,
    DownArrow,
    PgDn,
    Insert,
    Delete,
    Mute,
    VolDn,
    VolUp,
    Power,
    KpEqual,
    Pause,
}

/// Evdev key codes (the index) to keys; codes without a key map to `NoKey`.
pub const KEYMAP: [KeyCode; 120] = [
    KeyCode::NoKey,
    KeyCode::Esc,
    KeyCode::Kb1,
    KeyCode::Kb2,
    KeyCode::Kb3,
    KeyCode::Kb4,
    KeyCode::Kb5,
    KeyCode::Kb6,
    KeyCode::Kb7,
    KeyCode::Kb8,
    KeyCode::Kb9,
    KeyCode::Kb0,
    KeyCode::Minus,
    KeyCode::Equals,
    KeyCode::Backsp,
    KeyCode::Tab,
    KeyCode::Q,
    KeyCode::W,
    KeyCode::E,
    KeyCode::R,
    KeyCode::T,
    KeyCode::Y,
    KeyCode::U,
    KeyCode::I,
    KeyCode::O,
    KeyCode::P,
    KeyCode::SquareOpen,
    KeyCode::SquareClose,
    KeyCode::Return,
    KeyCode::LeftCtrl,
    KeyCode::A,
    KeyCode::S,
    KeyCode::D,
    KeyCode::F,
    KeyCode::G,
    KeyCode::H,
    KeyCode::J,
    KeyCode::K,
    KeyCode::L,
    KeyCode::Semicolon,
    KeyCode::Quote,
    KeyCode::GraveTilde,
    KeyCode::LeftShift,
    KeyCode::Backslash,
    KeyCode::Z,
    KeyCode::X,
    KeyCode::C,
    KeyCode::V,
    KeyCode::B,
    KeyCode::N,
    KeyCode::M,
    KeyCode::Comma,
    KeyCode::Period,
    KeyCode::Slash,
    KeyCode::RightShift,
    KeyCode::KpStar,
    KeyCode::LeftAlt,
    KeyCode::Space,
    KeyCode::Caps,
    KeyCode::F1,
    KeyCode::F2,
    KeyCode::F3,
    KeyCode::F4,
    KeyCode::F5,
    KeyCode::F6,
    KeyCode::F7,
    KeyCode::F8,
    KeyCode::F9,
    KeyCode::F10,
    KeyCode::Numlock,
    KeyCode::ScrollLock,
    KeyCode::Kp7,
    KeyCode::Kp8,
    KeyCode::Kp9,
    KeyCode::KpMinus,
    KeyCode::Kp4,
    KeyCode::Kp5,
    KeyCode::Kp6,
    KeyCode::KpPlus,
    KeyCode::Kp1,
    KeyCode::Kp2,
    KeyCode::Kp3,
    KeyCode::Kp0,
    KeyCode::KpPeriod,
    KeyCode::NoKey,
    KeyCode::NoKey,
    KeyCode::NoKey,
    KeyCode::F11,
    KeyCode::F12,
    KeyCode::NoKey,
    KeyCode::NoKey,
    KeyCode::NoKey,
    KeyCode::NoKey,
    KeyCode::NoKey,
    KeyCode::NoKey,
    KeyCode::NoKey,
    KeyCode::KpEnter,
    KeyCode::RightCtrl,
    KeyCode::KpSlash,
    KeyCode::SysRq,
    KeyCode::RightAlt,
    KeyCode::NoKey,
    KeyCode::Home,
    KeyCode::UpArrow,
    KeyCode::PgUp,
    KeyCode::LeftArrow,
    KeyCode::RightArrow,
    KeyCode::End,
    KeyCode::DownArrow,
    KeyCode::PgDn,
    KeyCode::Insert,
    KeyCode::Delete,
    KeyCode::NoKey,
    KeyCode::Mute,
    KeyCode::VolDn,
    KeyCode::VolUp,
    KeyCode::Power,
    KeyCode::KpEqual,
    KeyCode::NoKey,
    KeyCode::Pause,
];

/// The key of an evdev key code, if it has one.
pub open spec fn key_of_code(code: u16) -> Option<KeyCode> {
    if (code as int) < 120 && KEYMAP@[code as int] != KeyCode::NoKey {
        Some(KEYMAP@[code as int])
    } else {
        None
    }
}

/// The key of an evdev key code, if it has one.
pub fn keymap(code: u16) -> (r: Option<KeyCode>)
    ensures
        r == key_of_code(code),
{
    if (code as usize) < 120 {
        let kc = KEYMAP[code as usize];
        if kc != KeyCode::NoKey {
            Some(kc)
        } else {
            None
        }
    } else {
        None
    }
}

/// An input event: type, code and value.
#[derive(Copy, Clone, Debug, PartialEq, Eq, Structural)]
pub struct InputEvent {
    pub ty: u16,
    pub code: u16,
    pub value: u32,
}

impl InputEvent {
    /// Decode the 8-byte little-endian wire form.
    pub fn from_bytes(ev: &[u8]) -> (r: InputEvent)
        requires
            ev@.len() >= 8,
        ensures
            r.ty == (ev@[0] as u16) | ((ev@[1] as u16) << 8u16),
            r.code == (ev@[2] as u16) | ((ev@[3] as u16) << 8u16),
            r.value == le32_at(ev@, 4),
    {
        InputEvent {
            ty: (ev[0] as u16) | ((ev[1] as u16) << 8),
            code: (ev[2] as u16) | ((ev[3] as u16) << 8),
            value: crate::virtio::devices::read_le32(ev, 4),
        }
    }
}

/// What an event does to the keyboard.
#[derive(Copy, Clone, Debug, PartialEq, Eq, Structural)]
pub enum KeyAction {
    Ignore,
    Press(KeyCode),
    Release(KeyCode),
}

/// The effect of an event: a key event of a mapped key presses it (value
/// non-zero) or releases it (value zero); everything else is ignored.
pub open spec fn event_action_spec(ev: InputEvent) -> KeyAction {
    if ev.ty == EV_KEY {
        match key_of_code(ev.code) {
            Some(kc) => if ev.value != 0 { KeyAction::Press(kc) } else { KeyAction::Release(kc) },
            None => KeyAction::Ignore,
        }
    } else {
        KeyAction::Ignore
    }
}

/// A key event (type 1) of a mapped key releases that key when its value is
/// zero, and presses it for every other value, so an autorepeat (value 2)
/// acts as a fresh press: two key events that differ only in a non-zero
/// value have the same effect. Other event types, and unmapped keys, do
/// nothing.
pub proof fn lemma_key_event_action(ev: InputEvent, other_value: u32)
    ensures
        ev.ty == 1 && key_of_code(ev.code) is Some && ev.value == 0 ==> event_action_spec(ev) == KeyAction::Release(
            key_of_code(ev.code)->0,
        ),
        ev.ty == 1 && key_of_code(ev.code) is Some && ev.value != 0 ==> event_action_spec(ev) == KeyAction::Press(
            key_of_code(ev.code)->0,
        ),
        ev.value != 0 && other_value != 0 ==> event_action_spec(ev) == event_action_spec(
            InputEvent { value: other_value, ..ev },
        ),
        ev.ty != 1 || key_of_code(ev.code) is None ==> event_action_spec(ev) == KeyAction::Ignore,
{
}

/// The effect of an event on the keyboard.
pub fn event_action(ev: InputEvent) -> (r: KeyAction)
    ensures
        r == event_action_spec(ev),
{
    if ev.ty == EV_KEY {
        match keymap(ev.code) {
            Some(kc) => if ev.value != 0 {
                KeyAction::Press(kc)
            } else {
                KeyAction::Release(kc)
            },
            None => KeyAction::Ignore,
        }
    } else {
        KeyAction::Ignore
    }
}

/// Configuration items the driver can select.
#[derive(Copy, Clone, Debug, PartialEq, Eq, Structural)]
pub enum ConfigSelect {
    Unset,
    IdName,
    IdSerial,
    IdDevids,
    PropBits,
    EvBits,
    AbsInfo,
}

impl ConfigSelect {
    pub open spec fn code_spec(self) -> u8 {
        match self {
            ConfigSelect::Unset => 0x00,
            ConfigSelect::IdName => 0x01,
            ConfigSelect::IdSerial => 0x02,
            ConfigSelect::IdDevids => 0x03,
            ConfigSelect::PropBits => 0x10,
            ConfigSelect::EvBits => 0x11,
            ConfigSelect::AbsInfo => 0x12,
        }
    }

    /// The selector value written to the configuration.
    pub fn code(self) -> (r: u8)
        ensures
            r == self.code_spec(),
    {
        match self {
            ConfigSelect::Unset => 0x00,
            ConfigSelect::IdName => 0x01,
            ConfigSelect::IdSerial => 0x02,
            ConfigSelect::IdDevids => 0x03,
            ConfigSelect::PropBits => 0x10,
            ConfigSelect::EvBits => 0x11,
            ConfigSelect::AbsInfo => 0x12,
        }
    }
}

/// Offset in the configuration of byte `i` of the selected item's data.
pub fn config_data_offset(i: usize) -> (r: usize)
    requires
        i < CFG_DATA_MAX,
    ensures
        r == 8 + i,
{
    8 + i
}

/// A configuration item of `len` bytes fits the data area.
pub fn config_len_ok(len: u8) -> (r: bool)
    ensures
        r == (len as usize <= CFG_DATA_MAX),
{
    len as usize <= CFG_DATA_MAX
}

} // verus!
