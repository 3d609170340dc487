//! Physical pins, alternate-function selections and signal roles.

use vstd::prelude::*;

verus! {

/// A GPIO port.
#[derive(Clone, Copy, Debug, PartialEq, Eq, Structural)]
pub enum Port {
    A,
    B,
    C,
    D,
    E,
    I,
}

/// A physical pin: port letter and pin number within the port (0 to 15).
#[derive(Clone, Copy, Debug, PartialEq, Eq, Structural)]
pub struct Pin {
    pub port: Port,
    pub number: u8,
}

/// A pin placed in one of its alternate-function modes: the identity under
/// which the capability table knows it.
#[derive(Clone, Copy, Debug, PartialEq, Eq, Structural)]
pub struct AltPin {
    pub pin: Pin,
    pub af: u8,
}

impl AltPin {
    /// The pin `port`/`number` in alternate-function mode `af`.
    pub fn new(port: Port, number: u8, af: u8) -> (r: AltPin)
        ensures
            r == (AltPin { pin: Pin { port, number }, af }),
    {
        AltPin { pin: Pin { port, number }, af }
    }
}

/// The purpose a pin serves for a peripheral in word-clocked audio mode.
#[derive(Clone, Copy, Debug, PartialEq, Eq, Structural)]
pub enum Role {
    /// Serial data.
    DataLine,
    /// Word select (left/right clock).
    WordSelect,
    /// Bit clock.
    BitClock,
    /// Master clock output.
    MasterClock,
    /// The placeholder for an absent master clock; no pin carries it.
    NoMasterClock,
}

} // verus!
