//! Platform-neutral descriptions of pin configuration: pull resistors,
//! logic levels, and drive strength. The hardware layer translates these
//! into its own register types; the core only carries them.
use vstd::prelude::*;

verus! {

/// The pull resistor of an input pin.
#[derive(Clone, Copy, PartialEq, Eq, Structural, Debug)]
pub enum Pull {
    Floating,
    Up,
    Down,
}

impl Default for Pull {
    /// No pull resistor.
    fn default() -> (r: Self)
        ensures
            r == Pull::Floating,
    {
        Pull::Floating
    }
}

/// The logic level of a pin.
#[derive(Clone, Copy, PartialEq, Eq, Structural, Debug)]
pub enum Level {
    Low,
    High,
}

impl Default for Level {
    fn default() -> (r: Self)
        ensures
            r == Level::Low,
    {
        Level::Low
    }
}

impl From<bool> for Level {
    fn from(val: bool) -> (r: Self) {
        match val {
            true => Level::High,
            false => Level::Low,
        }
    }
}

impl vstd::std_specs::convert::FromSpecImpl<bool> for Level {
    open spec fn obeys_from_spec() -> bool {
        true
    }

    open spec fn from_spec(val: bool) -> Level {
        if val {
            Level::High
        } else {
            Level::Low
        }
    }
}

impl From<Level> for bool {
    fn from(level: Level) -> (r: bool) {
        match level {
            Level::Low => false,
            Level::High => true,
        }
    }
}

impl vstd::std_specs::convert::FromSpecImpl<Level> for bool {
    open spec fn obeys_from_spec() -> bool {
        true
    }

    open spec fn from_spec(level: Level) -> bool {
        level == Level::High
    }
}

/// The drive strength of an output pin.
#[derive(Clone, Copy, PartialEq, Eq, Structural, Debug)]
pub enum Drive {
    Standard,
    High,
}

impl Default for Drive {
    fn default() -> (r: Self)
        ensures
            r == Drive::Standard,
    {
        Drive::Standard
    }
}

} // verus!
