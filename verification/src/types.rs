//! Pin configuration values.

use vstd::prelude::*;

verus! {

/// Pin multiplexer function (the PCR `MUX` field).
#[derive(Copy, Clone, Eq, PartialEq, Debug, Structural)]
pub enum Function {
    /// Function 0
    F0,
    /// Function 1
    F1,
    /// Function 2
    F2,
    /// Function 3
    F3,
    /// Function 4
    F4,
    /// Function 5
    F5,
    /// Function 6
    F6,
    /// Function 7
    F7,
}

/// Logical level for GP pins.
#[derive(Copy, Clone, Eq, PartialEq, Debug, Structural)]
pub enum Level {
    Low,
    High,
}

/// The level that a boolean stands for: `true` is high.
pub open spec fn level_of(val: bool) -> Level {
    if val {
        Level::High
    } else {
        Level::Low
    }
}

impl From<bool> for Level {
    fn from(val: bool) -> (r: Self) {
        match val {
            true => Self::High,
            false => Self::Low,
        }
    }
}

impl vstd::std_specs::convert::FromSpecImpl<bool> for Level {
    open spec fn obeys_from_spec() -> bool {
        true
    }

    open spec fn from_spec(val: bool) -> Level {
        level_of(val)
    }
}

#[derive(Copy, Clone, Eq, PartialEq, Debug, Structural)]
pub enum Pull {
    /// No pull resistor (the pull is disabled).
    Disabled,
    Up,
    Down,
}

#[derive(Copy, Clone, Eq, PartialEq, Debug, Structural)]
pub enum SlewRate {
    Fast,
    Slow,
}

#[derive(Copy, Clone, Eq, PartialEq, Debug, Structural)]
pub enum DriveStrength {
    Normal,
    Double,
}

#[derive(Copy, Clone, Eq, PartialEq, Debug, Structural)]
pub enum Inverter {
    Disabled,
    Enabled,
}

} // verus!
