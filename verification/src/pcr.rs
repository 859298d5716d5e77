//! The pin control register (PORTn `PCRm`) and the updates that configure a pin.
//!
//! Each update keeps every bit outside the field it writes, as a register
//! `modify` does.

use vstd::prelude::*;
use crate::bits::agree_outside;
use crate::types::{DriveStrength, Function, Pull, SlewRate};

verus! {

/// `PS`: pull select (set: pull-up, clear: pull-down).
pub const PCR_PS: u32 = 0x0000_0001;

/// `PE`: pull enable.
pub const PCR_PE: u32 = 0x0000_0002;

/// `SRE`: slew rate enable.
pub const PCR_SRE: u32 = 0x0000_0008;

/// `DSE`: drive strength enable.
pub const PCR_DSE: u32 = 0x0000_0040;

/// `MUX`: pin function, bits 8 to 11.
pub const PCR_MUX: u32 = 0x0000_0F00;

/// Position of the lowest bit of `MUX`.
pub const PCR_MUX_SHIFT: u32 = 8;

/// `IBE`: input buffer enable.
pub const PCR_IBE: u32 = 0x0000_1000;

/// The value of the `MUX` field that selects `function`.
pub open spec fn spec_mux_value(function: Function) -> u32 {
    match function {
        Function::F0 => 0,
        Function::F1 => 1,
        Function::F2 => 2,
        Function::F3 => 3,
        Function::F4 => 4,
        Function::F5 => 5,
        Function::F6 => 6,
        Function::F7 => 7,
    }
}

/// The `MUX` field of a PCR value.
pub open spec fn pcr_mux(pcr: u32) -> u32 {
    (pcr & PCR_MUX) >> PCR_MUX_SHIFT
}

/// The pull that a PCR value configures.
pub open spec fn pcr_pull(pcr: u32) -> Pull {
    if pcr & PCR_PE == 0 {
        Pull::Disabled
    } else if pcr & PCR_PS == 0 {
        Pull::Down
    } else {
        Pull::Up
    }
}

/// The drive strength that a PCR value configures.
pub open spec fn pcr_drive_strength(pcr: u32) -> DriveStrength {
    if pcr & PCR_DSE == 0 {
        DriveStrength::Normal
    } else {
        DriveStrength::Double
    }
}

/// The slew rate that a PCR value configures: this driver writes `SRE` set for
/// `Fast` and clear for `Slow`.
pub open spec fn pcr_slew_rate(pcr: u32) -> SlewRate {
    if pcr & PCR_SRE == 0 {
        SlewRate::Slow
    } else {
        SlewRate::Fast
    }
}

/// Whether a PCR value enables the input buffer.
pub open spec fn pcr_input_buffer(pcr: u32) -> bool {
    pcr & PCR_IBE != 0
}

/// The `MUX` value for `function`.
pub fn mux_value(function: Function) -> (r: u32)
    ensures
        r == spec_mux_value(function),
        r < 8,
{
    match function {
        Function::F0 => 0,
        Function::F1 => 1,
        Function::F2 => 2,
        Function::F3 => 3,
        Function::F4 => 4,
        Function::F5 => 5,
        Function::F6 => 6,
        Function::F7 => 7,
    }
}

/// `pcr` with its `MUX` field selecting `function`.
pub fn pcr_with_function(pcr: u32, function: Function) -> (r: u32)
    ensures
        pcr_mux(r) == spec_mux_value(function),
        agree_outside(r, pcr, PCR_MUX),
{
    let v = mux_value(function);
    let r = (pcr & !PCR_MUX) | (v << PCR_MUX_SHIFT);
    assert((((pcr & !0xF00u32) | (v << 8u32)) & 0xF00u32) >> 8u32 == v
        && ((pcr & !0xF00u32) | (v << 8u32)) & !0xF00u32 == pcr & !0xF00u32) by (bit_vector)
        requires
            v < 8u32,
    ;
    r
}

/// `pcr` with the pull resistor configured as `pull`: `Disabled` clears `PE`
/// and keeps `PS`; `Up` and `Down` set `PE` and set or clear `PS`.
pub fn pcr_with_pull(pcr: u32, pull: Pull) -> (r: u32)
    ensures
        pcr_pull(r) == pull,
        pull == Pull::Disabled ==> agree_outside(r, pcr, PCR_PE),
        agree_outside(r, pcr, PCR_PE | PCR_PS),
{
    assert(0x2u32 | 0x1u32 == 0x3u32) by (bit_vector);
    assert(pcr & !0x2u32 & 0x2u32 == 0u32 && pcr & !0x2u32 & !0x2u32 == pcr & !0x2u32
        && pcr & !0x2u32 & !0x3u32 == pcr & !0x3u32) by (bit_vector);
    assert(((pcr | 0x2u32) | 0x1u32) & 0x2u32 != 0u32 && ((pcr | 0x2u32) | 0x1u32) & 0x1u32 != 0u32
        && ((pcr | 0x2u32) | 0x1u32) & !0x3u32 == pcr & !0x3u32) by (bit_vector);
    assert(((pcr | 0x2u32) & !0x1u32) & 0x2u32 != 0u32 && ((pcr | 0x2u32) & !0x1u32) & 0x1u32 == 0u32
        && ((pcr | 0x2u32) & !0x1u32) & !0x3u32 == pcr & !0x3u32) by (bit_vector);
    match pull {
        Pull::Disabled => pcr & !PCR_PE,
        Pull::Up => (pcr | PCR_PE) | PCR_PS,
        Pull::Down => (pcr | PCR_PE) & !PCR_PS,
    }
}

/// `pcr` with `DSE` set for `Double` and clear for `Normal`.
pub fn pcr_with_drive_strength(pcr: u32, strength: DriveStrength) -> (r: u32)
    ensures
        pcr_drive_strength(r) == strength,
        agree_outside(r, pcr, PCR_DSE),
{
    assert(pcr & !0x40u32 & 0x40u32 == 0u32 && pcr & !0x40u32 & !0x40u32 == pcr & !0x40u32
        && (pcr | 0x40u32) & 0x40u32 != 0u32 && (pcr | 0x40u32) & !0x40u32 == pcr & !0x40u32)
        by (bit_vector);
    match strength {
        DriveStrength::Normal => pcr & !PCR_DSE,
        DriveStrength::Double => pcr | PCR_DSE,
    }
}

/// `pcr` with `SRE` clear for `Slow` and set for `Fast`.
pub fn pcr_with_slew_rate(pcr: u32, slew_rate: SlewRate) -> (r: u32)
    ensures
        pcr_slew_rate(r) == slew_rate,
        agree_outside(r, pcr, PCR_SRE),
{
    assert(pcr & !0x8u32 & 0x8u32 == 0u32 && pcr & !0x8u32 & !0x8u32 == pcr & !0x8u32
        && (pcr | 0x8u32) & 0x8u32 != 0u32 && (pcr | 0x8u32) & !0x8u32 == pcr & !0x8u32)
        by (bit_vector);
    match slew_rate {
        SlewRate::Slow => pcr & !PCR_SRE,
        SlewRate::Fast => pcr | PCR_SRE,
    }
}

/// `pcr` with `IBE` set.
pub fn pcr_with_input_buffer(pcr: u32) -> (r: u32)
    ensures
        pcr_input_buffer(r),
        agree_outside(r, pcr, PCR_IBE),
{
    assert((pcr | 0x1000u32) & 0x1000u32 != 0u32 && (pcr | 0x1000u32) & !0x1000u32 == pcr
        & !0x1000u32) by (bit_vector);
    pcr | PCR_IBE
}

} // verus!

verus! {

/// The `MUX` values of the functions are 0 to 7, in the order of the
/// functions' numbers.
pub proof fn law_mux_values_in_order()
    ensures
        spec_mux_value(Function::F0) < spec_mux_value(Function::F1) < spec_mux_value(Function::F2)
            < spec_mux_value(Function::F3) < spec_mux_value(Function::F4) < spec_mux_value(
            Function::F5,
        ) < spec_mux_value(Function::F6) < spec_mux_value(Function::F7) < 8,
        spec_mux_value(Function::F0) >= 0,
{
}

/// The configuration fields are separate: values that agree outside one
/// field read the same in every other field.
pub proof fn law_pcr_fields_separate(x: u32, y: u32)
    ensures
        agree_outside(x, y, PCR_MUX) ==> pcr_pull(x) == pcr_pull(y) && pcr_drive_strength(x)
            == pcr_drive_strength(y) && pcr_slew_rate(x) == pcr_slew_rate(y)
            && pcr_input_buffer(x) == pcr_input_buffer(y),
        agree_outside(x, y, PCR_PE | PCR_PS) ==> pcr_mux(x) == pcr_mux(y) && pcr_drive_strength(x)
            == pcr_drive_strength(y) && pcr_slew_rate(x) == pcr_slew_rate(y)
            && pcr_input_buffer(x) == pcr_input_buffer(y),
        agree_outside(x, y, PCR_DSE) ==> pcr_mux(x) == pcr_mux(y) && pcr_pull(x) == pcr_pull(y)
            && pcr_slew_rate(x) == pcr_slew_rate(y) && pcr_input_buffer(x) == pcr_input_buffer(y),
        agree_outside(x, y, PCR_SRE) ==> pcr_mux(x) == pcr_mux(y) && pcr_pull(x) == pcr_pull(y)
            && pcr_drive_strength(x) == pcr_drive_strength(y) && pcr_input_buffer(x)
            == pcr_input_buffer(y),
        agree_outside(x, y, PCR_IBE) ==> pcr_mux(x) == pcr_mux(y) && pcr_pull(x) == pcr_pull(y)
            && pcr_drive_strength(x) == pcr_drive_strength(y) && pcr_slew_rate(x) == pcr_slew_rate(
            y,
        ),
{
    assert(x & !0xF00u32 == y & !0xF00u32 ==> x & 0x1u32 == y & 0x1u32 && x & 0x2u32 == y & 0x2u32
        && x & 0x8u32 == y & 0x8u32 && x & 0x40u32 == y & 0x40u32 && x & 0x1000u32 == y
        & 0x1000u32) by (bit_vector);
    assert(x & !(0x2u32 | 0x1u32) == y & !(0x2u32 | 0x1u32) ==> x & 0xF00u32 == y & 0xF00u32 && x
        & 0x8u32 == y & 0x8u32 && x & 0x40u32 == y & 0x40u32 && x & 0x1000u32 == y & 0x1000u32)
        by (bit_vector);
    assert(x & !0x40u32 == y & !0x40u32 ==> x & 0xF00u32 == y & 0xF00u32 && x & 0x1u32 == y & 0x1u32
        && x & 0x2u32 == y & 0x2u32 && x & 0x8u32 == y & 0x8u32 && x & 0x1000u32 == y & 0x1000u32)
        by (bit_vector);
    assert(x & !0x8u32 == y & !0x8u32 ==> x & 0xF00u32 == y & 0xF00u32 && x & 0x1u32 == y & 0x1u32
        && x & 0x2u32 == y & 0x2u32 && x & 0x40u32 == y & 0x40u32 && x & 0x1000u32 == y & 0x1000u32)
        by (bit_vector);
    assert(x & !0x1000u32 == y & !0x1000u32 ==> x & 0xF00u32 == y & 0xF00u32 && x & 0x1u32 == y
        & 0x1u32 && x & 0x2u32 == y & 0x2u32 && x & 0x40u32 == y & 0x40u32 && x & 0x8u32 == y
        & 0x8u32) by (bit_vector);
}

} // verus!
