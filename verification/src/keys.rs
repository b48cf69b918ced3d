//! The host's keyboard: which of its keys stand for the sixteen keys of the
//! hex pad, and which one ends the session.

use vstd::prelude::*;

verus! {

/// Index of a key of the hex pad.
pub type Key = u8;

/// Whether a key went down (`true`) or up.
pub type Pressed = bool;

/// A key of the host's keyboard, as far as the machine takes note of it.
#[derive(Clone, Copy, Debug, PartialEq, Eq, Structural)]
pub enum HostKey {
    Key1,
    Key2,
    Key3,
    Key4,
    Q,
    W,
    E,
    R,
    A,
    S,
    D,
    F,
    Z,
    X,
    C,
    V,
    Escape,
    Other,
}

/// An event of the host's window.
#[derive(Clone, Copy, Debug, PartialEq, Eq, Structural)]
pub enum HostEvent {
    /// A key went down or up.
    Keyboard { key: HostKey, pressed: bool },
    /// Anything else.
    Other,
}

/// What an event of the host means to the machine.
#[derive(Clone, Copy, Debug, PartialEq, Eq, Structural)]
pub enum MapKeyResult {
    /// Nothing.
    Nothing,
    /// The session is to end.
    Exit,
    /// Key `key` of the hex pad went down (`pressed`) or up.
    Event { key: u8, pressed: bool },
}

/// The key of the hex pad that a key of the host stands for. The block
/// `1234 / QWER / ASDF / ZXCV` of the keyboard lies over the pad's
/// `123C / 456D / 789E / A0BF`.
pub open spec fn pad_key(key: HostKey) -> Option<u8> {
    match key {
        HostKey::Key1 => Some(0x1u8),
        HostKey::Key2 => Some(0x2u8),
        HostKey::Key3 => Some(0x3u8),
        HostKey::Key4 => Some(0xCu8),
        HostKey::Q => Some(0x4u8),
        HostKey::W => Some(0x5u8),
        HostKey::E => Some(0x6u8),
        HostKey::R => Some(0xDu8),
        HostKey::A => Some(0x7u8),
        HostKey::S => Some(0x8u8),
        HostKey::D => Some(0x9u8),
        HostKey::F => Some(0xEu8),
        HostKey::Z => Some(0xAu8),
        HostKey::X => Some(0x0u8),
        HostKey::C => Some(0xBu8),
        HostKey::V => Some(0xFu8),
        HostKey::Escape | HostKey::Other => None,
    }
}

/// What an event means: the escape key, down or up, ends the session; a key
/// that stands for a key of the pad is an event of that key; anything else
/// is nothing.
pub open spec fn mapped(ev: HostEvent) -> MapKeyResult {
    match ev {
        HostEvent::Keyboard { key, pressed } => if key == HostKey::Escape {
            MapKeyResult::Exit
        } else {
            match pad_key(key) {
                Some(k) => MapKeyResult::Event { key: k, pressed },
                None => MapKeyResult::Nothing,
            }
        },
        HostEvent::Other => MapKeyResult::Nothing,
    }
}

/// What an event of the host means to the machine.
pub fn map_key(ev: HostEvent) -> (r: MapKeyResult)
    ensures
        r == mapped(ev),
        r matches MapKeyResult::Event { key, .. } ==> key < 16,
{
    match ev {
        HostEvent::Keyboard { key: code, pressed } => {
            let key: u8 = match code {
                HostKey::Key1 => 0x1,
                HostKey::Key2 => 0x2,
                HostKey::Key3 => 0x3,
                HostKey::Key4 => 0xC,
                HostKey::Q => 0x4,
                HostKey::W => 0x5,
                HostKey::E => 0x6,
                HostKey::R => 0xD,
                HostKey::A => 0x7,
                HostKey::S => 0x8,
                HostKey::D => 0x9,
                HostKey::F => 0xE,
                HostKey::Z => 0xA,
                HostKey::X => 0x0,
                HostKey::C => 0xB,
                HostKey::V => 0xF,
                HostKey::Escape => {
                    return MapKeyResult::Exit;
                },
                HostKey::Other => {
                    return MapKeyResult::Nothing;
                },
            };
            MapKeyResult::Event { key, pressed }
        },
        HostEvent::Other => MapKeyResult::Nothing,
    }
}

/// The key of the host that stands for key `k` of the pad.
pub open spec fn host_key(k: u8) -> HostKey {
    if k == 0x0 {
        HostKey::X
    } else if k == 0x1 {
        HostKey::Key1
    } else if k == 0x2 {
        HostKey::Key2
    } else if k == 0x3 {
        HostKey::Key3
    } else if k == 0x4 {
        HostKey::Q
    } else if k == 0x5 {
        HostKey::W
    } else if k == 0x6 {
        HostKey::E
    } else if k == 0x7 {
        HostKey::A
    } else if k == 0x8 {
        HostKey::S
    } else if k == 0x9 {
        HostKey::D
    } else if k == 0xA {
        HostKey::Z
    } else if k == 0xB {
        HostKey::C
    } else if k == 0xC {
        HostKey::Key4
    } else if k == 0xD {
        HostKey::R
    } else if k == 0xE {
        HostKey::F
    } else {
        HostKey::V
    }
}

/// Every key of the pad has exactly one key of the host: the two tables are
/// inverse to each other, and no key of the host stands for a key that the
/// pad does not have.
pub proof fn lemma_pad_keys()
    ensures
        forall|k: u8| k < 16 ==> pad_key(#[trigger] host_key(k)) == Some(k),
        forall|key: HostKey|
            (#[trigger] pad_key(key)).is_some() ==> pad_key(key).unwrap() < 16 && host_key(
                pad_key(key).unwrap(),
            ) == key,
{
}

} // verus!
