//! The composite report in its wire-ready shape: one modifier byte, one
//! reserved byte, one LED byte, and six key-code bytes, as the conventional
//! boot-keyboard layout expects.
use vstd::prelude::*;

use crate::keycode::KeyCode;
use crate::reactor_event::KeyModifiers;

verus! {

/// A keyboard input report with every field already in wire form.
#[derive(Clone, Copy, PartialEq, Eq, Debug)]
pub struct KeyboardReport {
    pub modifier: u8,
    pub reserved: u8,
    pub leds: u8,
    pub keycodes: [u8; 6],
}

/// The same report as a plain record, for code that builds or inspects
/// reports field by field before handing them to a transport.
#[derive(Clone, Copy, PartialEq, Eq, Debug)]
pub struct Report {
    pub modifier: u8,
    pub reserved: u8,
    pub leds: u8,
    pub keycodes: [u8; 6],
}

impl From<Report> for KeyboardReport {
    fn from(r: Report) -> (out: KeyboardReport) {
        KeyboardReport {
            modifier: r.modifier,
            reserved: r.reserved,
            leds: r.leds,
            keycodes: r.keycodes,
        }
    }
}

impl vstd::std_specs::convert::FromSpecImpl<Report> for KeyboardReport {
    open spec fn obeys_from_spec() -> bool {
        true
    }

    open spec fn from_spec(r: Report) -> KeyboardReport {
        KeyboardReport {
            modifier: r.modifier,
            reserved: r.reserved,
            leds: r.leds,
            keycodes: r.keycodes,
        }
    }
}

impl From<KeyboardReport> for Report {
    fn from(r: KeyboardReport) -> (out: Report) {
        Report {
            modifier: r.modifier,
            reserved: r.reserved,
            leds: r.leds,
            keycodes: r.keycodes,
        }
    }
}

impl vstd::std_specs::convert::FromSpecImpl<KeyboardReport> for Report {
    open spec fn obeys_from_spec() -> bool {
        true
    }

    open spec fn from_spec(r: KeyboardReport) -> Report {
        Report {
            modifier: r.modifier,
            reserved: r.reserved,
            leds: r.leds,
            keycodes: r.keycodes,
        }
    }
}

/// Encodes an aggregator report event's payload into the wire-ready report:
/// the modifier bitfield becomes its byte, each key its code, the reserved
/// and LED bytes zero.
pub fn boot_report(modifier: KeyModifiers, keycodes: &[KeyCode; 6]) -> (r: KeyboardReport)
    ensures
        r.modifier == modifier.byte_spec(),
        r.reserved == 0,
        r.leds == 0,
        r.keycodes@.len() == 6,
        forall|i: int| 0 <= i < 6 ==> r.keycodes@[i] == (#[trigger] keycodes@[i]).code_spec(),
{
    KeyboardReport {
        modifier: modifier.to_byte(),
        reserved: 0,
        leds: 0,
        keycodes: [
            keycodes[0].code(),
            keycodes[1].code(),
            keycodes[2].code(),
            keycodes[3].code(),
            keycodes[4].code(),
            keycodes[5].code(),
        ],
    }
}

impl KeyboardReport {
    /// The eight wire bytes of the boot-keyboard layout: the modifier byte,
    /// the reserved byte, then the six key codes.
    pub fn wire_bytes(&self) -> (r: [u8; 8])
        ensures
            r@ == seq![
                self.modifier,
                self.reserved,
                self.keycodes@[0],
                self.keycodes@[1],
                self.keycodes@[2],
                self.keycodes@[3],
                self.keycodes@[4],
                self.keycodes@[5],
            ],
    {
        let r = [
            self.modifier,
            self.reserved,
            self.keycodes[0],
            self.keycodes[1],
            self.keycodes[2],
            self.keycodes[3],
            self.keycodes[4],
            self.keycodes[5],
        ];
        proof {
            assert(r@ =~= seq![
                self.modifier,
                self.reserved,
                self.keycodes@[0],
                self.keycodes@[1],
                self.keycodes@[2],
                self.keycodes@[3],
                self.keycodes@[4],
                self.keycodes@[5],
            ]);
        }
        r
    }
}

} // verus!
