//! Time functions and structs.
//!
//! Wall time is derived from the system timer generator's count and the
//! peripheral kernel clock frequency.  The blocking and asynchronous delay
//! loops spin on the advancing hardware count and belong to the layer that
//! owns real time; the conversions from counts to milliseconds and
//! microseconds are computed here.

use vstd::prelude::*;

use crate::stgen::Stgen;

verus! {

/// Return milliseconds since start.
/// - `stgen`: the system timer generator.
/// - `per_ck_hz`: the peripheral kernel clock frequency in Hz, at least
///   one tick per millisecond.
pub fn millis(stgen: &Stgen, per_ck_hz: u32) -> (r: u64)
    requires
        per_ck_hz >= 1000,
    ensures
        r == stgen.counter / ((per_ck_hz / 1000) as u64),
{
    stgen.value() / (per_ck_hz as u64 / 1000)
}

/// Return microseconds since start.
/// - `stgen`: the system timer generator.
/// - `per_ck_hz`: the peripheral kernel clock frequency in Hz, at least
///   one tick per microsecond.
pub fn micros(stgen: &Stgen, per_ck_hz: u32) -> (r: u64)
    requires
        per_ck_hz >= 1000000,
    ensures
        r == stgen.counter / ((per_ck_hz / 1000000) as u64),
{
    stgen.value() / (per_ck_hz as u64 / 1000000)
}

/// The timer count at which a delay of some milliseconds ends.
pub fn delay_ms_deadline(stgen: &Stgen, per_ck_hz: u32, ms: u32) -> (r: u64)
    requires
        per_ck_hz >= 1000,
        stgen.counter + (per_ck_hz / 1000) as u64 * ms as u64 <= u64::MAX,
    ensures
        r == stgen.counter + ((per_ck_hz / 1000) as u64) * ms as u64,
{
    stgen.value() + (per_ck_hz as u64 / 1000) * ms as u64
}

/// The timer count at which a delay of some microseconds ends.
pub fn delay_us_deadline(stgen: &Stgen, per_ck_hz: u32, us: u32) -> (r: u64)
    requires
        per_ck_hz >= 1000000,
        stgen.counter + (per_ck_hz / 1000000) as u64 * us as u64 <= u64::MAX,
    ensures
        r == stgen.counter + ((per_ck_hz / 1000000) as u64) * us as u64,
{
    stgen.value() + (per_ck_hz as u64 / 1000000) * us as u64
}

/// Delay provider.
#[derive(Debug, Clone, Copy, PartialEq, Eq, Structural)]
pub struct Delay;

impl Delay {
    /// Returns a new instance.
    pub fn new() -> (r: Self)
        ensures
            r == Delay,
    {
        Self {}
    }
}

} // verus!
