//! The closed set of messages that can flow on the broadcast bus, together
//! with the keymap-table cell type and the modifier bitfield.
use vstd::prelude::*;

use crate::keycode::KeyCode;

verus! {

/// A logical, debounced key transition.
#[derive(Clone, Copy, PartialEq, Eq, Structural, Debug)]
pub enum KeyEvent {
    Pressed(KeyCode),
    Released(KeyCode),
}

impl Default for KeyEvent {
    /// The rest state: no key involved, nothing held.
    fn default() -> (r: Self)
        ensures
            r == KeyEvent::Released(KeyCode::NoKey),
    {
        KeyEvent::Released(KeyCode::NoKey)
    }
}

/// A control action resolved inside the keymap; it never escapes as a bus
/// message. Layer actions move the active layer; the remaining actions are
/// reserved for transport selection and leave the layer alone.
#[derive(Clone, Copy, PartialEq, Eq, Structural, Debug)]
pub enum InternalEvent {
    NoAction,
    LayerNext,
    LayerPrev,
    LayerChange(usize),
    BLENext,
    BLEPrev,
    BLEChange(usize),
}

impl Default for InternalEvent {
    fn default() -> (r: Self)
        ensures
            r == InternalEvent::NoAction,
    {
        InternalEvent::NoAction
    }
}

/// One cell of the keymap table: either a key to report, an internal control
/// action, or nothing at all.
#[derive(Clone, Copy, PartialEq, Eq, Structural, Debug)]
pub enum KeyCodeInt {
    Unmapped,
    Key(KeyCode),
    Internal(InternalEvent),
}

/// The modifier bitfield of a keyboard report, one flag per modifier key,
/// in wire-bit order starting at the least significant bit.
#[derive(Clone, Copy, PartialEq, Eq, Structural, Debug)]
pub struct KeyModifiers {
    pub lctrl: bool,
    pub lshift: bool,
    pub lalt: bool,
    pub lgui: bool,
    pub rctrl: bool,
    pub rshift: bool,
    pub ralt: bool,
    pub rgui: bool,
}

impl KeyModifiers {
    /// The bitfield with no flag set.
    pub open spec fn none_set() -> KeyModifiers {
        KeyModifiers {
            lctrl: false,
            lshift: false,
            lalt: false,
            lgui: false,
            rctrl: false,
            rshift: false,
            ralt: false,
            rgui: false,
        }
    }

    /// The single-byte wire form: bit i is the flag of the modifier with
    /// wire code 0xE0 + i.
    pub open spec fn byte_spec(self) -> u8 {
        (if self.lctrl { 1u8 } else { 0u8 }) | (if self.lshift { 2u8 } else { 0u8 })
            | (if self.lalt { 4u8 } else { 0u8 }) | (if self.lgui { 8u8 } else { 0u8 }) | (if self.rctrl {
            16u8
        } else {
            0u8
        }) | (if self.rshift { 32u8 } else { 0u8 }) | (if self.ralt { 64u8 } else { 0u8 }) | (if self.rgui {
            128u8
        } else {
            0u8
        })
    }

    /// Packs the eight flags into the wire byte.
    pub fn to_byte(self) -> (r: u8)
        ensures
            r == self.byte_spec(),
    {
        (if self.lctrl {
            1u8
        } else {
            0u8
        }) | (if self.lshift {
            2u8
        } else {
            0u8
        }) | (if self.lalt {
            4u8
        } else {
            0u8
        }) | (if self.lgui {
            8u8
        } else {
            0u8
        }) | (if self.rctrl {
            16u8
        } else {
            0u8
        }) | (if self.rshift {
            32u8
        } else {
            0u8
        }) | (if self.ralt {
            64u8
        } else {
            0u8
        }) | (if self.rgui {
            128u8
        } else {
            0u8
        })
    }

    /// Unpacks a wire byte into the eight flags; inverse of `to_byte`.
    pub fn from_byte(v: u8) -> (r: KeyModifiers)
        ensures
            r.lctrl == (v & 1 != 0),
            r.lshift == (v & 2 != 0),
            r.lalt == (v & 4 != 0),
            r.lgui == (v & 8 != 0),
            r.rctrl == (v & 16 != 0),
            r.rshift == (v & 32 != 0),
            r.ralt == (v & 64 != 0),
            r.rgui == (v & 128 != 0),
            r.byte_spec() == v,
    {
        let r = KeyModifiers {
            lctrl: v & 1 != 0,
            lshift: v & 2 != 0,
            lalt: v & 4 != 0,
            lgui: v & 8 != 0,
            rctrl: v & 16 != 0,
            rshift: v & 32 != 0,
            ralt: v & 64 != 0,
            rgui: v & 128 != 0,
        };
        proof {
            assert(((if v & 1 != 0 { 1u8 } else { 0u8 }) | (if v & 2 != 0 { 2u8 } else { 0u8 }) | (if v
                & 4 != 0 {
                4u8
            } else {
                0u8
            }) | (if v & 8 != 0 { 8u8 } else { 0u8 }) | (if v & 16 != 0 { 16u8 } else { 0u8 }) | (if v
                & 32 != 0 {
                32u8
            } else {
                0u8
            }) | (if v & 64 != 0 { 64u8 } else { 0u8 }) | (if v & 128 != 0 { 128u8 } else { 0u8 })) == v)
                by (bit_vector);
        }
        r
    }
}

impl Default for KeyModifiers {
    /// No modifier held.
    fn default() -> (r: Self)
        ensures
            r == KeyModifiers::none_set(),
    {
        KeyModifiers {
            lctrl: false,
            lshift: false,
            lalt: false,
            lgui: false,
            rctrl: false,
            rshift: false,
            ralt: false,
            rgui: false,
        }
    }
}

/// The modifier bitfield converts losslessly: unpacking the packed byte of
/// any flag set gives back exactly those flags (and `from_byte`'s contract
/// states the byte-to-flags-to-byte direction).
pub proof fn lemma_modifier_byte_lossless(m: KeyModifiers)
    ensures
        (m.byte_spec() & 1 != 0) == m.lctrl,
        (m.byte_spec() & 2 != 0) == m.lshift,
        (m.byte_spec() & 4 != 0) == m.lalt,
        (m.byte_spec() & 8 != 0) == m.lgui,
        (m.byte_spec() & 16 != 0) == m.rctrl,
        (m.byte_spec() & 32 != 0) == m.rshift,
        (m.byte_spec() & 64 != 0) == m.ralt,
        (m.byte_spec() & 128 != 0) == m.rgui,
{
    let a = m.lctrl;
    let b = m.lshift;
    let c = m.lalt;
    let d = m.lgui;
    let e = m.rctrl;
    let f = m.rshift;
    let g = m.ralt;
    let h = m.rgui;
    let v = m.byte_spec();
    assert(v == (if a { 1u8 } else { 0u8 }) | (if b { 2u8 } else { 0u8 }) | (if c {
        4u8
    } else {
        0u8
    }) | (if d { 8u8 } else { 0u8 }) | (if e { 16u8 } else { 0u8 }) | (if f {
        32u8
    } else {
        0u8
    }) | (if g { 64u8 } else { 0u8 }) | (if h { 128u8 } else { 0u8 }));
    assert({
        let w = (if a { 1u8 } else { 0u8 }) | (if b { 2u8 } else { 0u8 }) | (if c {
            4u8
        } else {
            0u8
        }) | (if d { 8u8 } else { 0u8 }) | (if e { 16u8 } else { 0u8 }) | (if f {
            32u8
        } else {
            0u8
        }) | (if g { 64u8 } else { 0u8 }) | (if h { 128u8 } else { 0u8 });
        &&& (w & 1 != 0) == a
        &&& (w & 2 != 0) == b
        &&& (w & 4 != 0) == c
        &&& (w & 8 != 0) == d
        &&& (w & 16 != 0) == e
        &&& (w & 32 != 0) == f
        &&& (w & 64 != 0) == g
        &&& (w & 128 != 0) == h
    }) by (bit_vector);
}

/// A message on the broadcast bus: raw matrix readings, logical key
/// transitions, composite reports, axis readings, and device status. Every
/// component reads the variants meant for it and ignores the rest.
#[derive(Clone, Copy, PartialEq, Eq, Debug)]
pub enum ReactorEvent {
    Key(KeyEvent),
    Locks { caps: bool, num: bool, scroll: bool },
    KeyboardReport { modifier: KeyModifiers, keycodes: [KeyCode; 6] },
    Mouse { x: u32, y: u32 },
    Potentiometer { v: i16 },
    Joystick { x: i16, y: i16 },
    FullJoystick { x: i16, y: i16, z: i16 },
    Joystick6DoF { x: i16, y: i16, z: i16, rx: i16, ry: i16, rz: i16 },
    Battery(u8),
    LED(bool),
    LEDAnalog(u8),
    RGBLED { r: u8, g: u8, b: u8 },
    HardwareMappedBool(bool, usize, usize),
    HardwareMappedU8(u8, usize, usize),
    HardwareMappedU16(u16, usize, usize),
    Analog6Axis(i16, i16, i16, i16, i16, i16),
}

} // verus!
