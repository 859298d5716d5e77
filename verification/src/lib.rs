//! GPIO driver for the MCX A family, verified with Verus.
//!
//! The port and GPIO register blocks of the chip are modelled as plain values
//! (see [`regs`]); the driver types of [`gpio`] compute every register update
//! from that model, and their contracts say exactly which bits change.

pub mod bits;
pub mod types;
pub mod pcr;
pub mod regs;
pub mod gpio;
