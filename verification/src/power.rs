//! Power implied by the spacing between two watt-hour pulses.
//!
//! Each pulse stands for one watt-hour, which is 3 600 000 watt-milliseconds.
//! Two pulses `d` milliseconds apart therefore mean an average draw of
//! `3 600 000 / d` watts over that interval. The quotient is kept exact, as
//! whole watts and a remainder, so that nothing is lost to rounding.

use vstd::prelude::*;

verus! {

/// Energy of one pulse, in watt-milliseconds (one watt-hour).
pub const WATT_MILLIS_PER_PULSE: u64 = 3_600_000;

/// An exact power figure: `watts + remainder / d` watts, where `d` is the
/// pulse spacing in milliseconds that the estimate was made from.
#[derive(Clone, Copy, Debug, PartialEq, Eq)]
pub struct PowerEstimate {
    /// Whole watts.
    pub watts: u64,
    /// Watt-milliseconds left over after the whole watts are taken out; always
    /// less than the spacing.
    pub remainder: u64,
}

/// The estimate for a spacing of `spacing_ms` milliseconds, which must be
/// positive for the value to mean anything.
pub open spec fn power_for(spacing_ms: int) -> PowerEstimate {
    PowerEstimate {
        watts: (WATT_MILLIS_PER_PULSE as int / spacing_ms) as u64,
        remainder: (WATT_MILLIS_PER_PULSE as int % spacing_ms) as u64,
    }
}

/// The estimate for a spacing already known to be positive.
pub(crate) fn power_between_pulses(spacing_ms: u64) -> (p: PowerEstimate)
    requires
        spacing_ms > 0,
    ensures
        p == power_for(spacing_ms as int),
{
    PowerEstimate {
        watts: WATT_MILLIS_PER_PULSE / spacing_ms,
        remainder: WATT_MILLIS_PER_PULSE % spacing_ms,
    }
}

/// Power drawn between two pulses `spacing_ms` milliseconds apart. There is
/// no finite answer for a spacing of zero, and only then is `None` returned.
pub fn power_estimate(spacing_ms: u64) -> (p: Option<PowerEstimate>)
    ensures
        spacing_ms == 0 ==> p is None,
        spacing_ms > 0 ==> p == Some(power_for(spacing_ms as int)),
{
    if spacing_ms == 0 {
        None
    } else {
        Some(power_between_pulses(spacing_ms))
    }
}

/// The estimate loses nothing: multiplied back by the spacing and with the
/// remainder added, it gives the energy of one pulse again, and the remainder
/// is smaller than the spacing. A spacing that divides the pulse energy
/// evenly leaves no remainder.
pub proof fn power_estimate_is_exact(spacing_ms: int)
    requires
        spacing_ms > 0,
    ensures
        power_for(spacing_ms).watts * spacing_ms + power_for(spacing_ms).remainder
            == WATT_MILLIS_PER_PULSE,
        power_for(spacing_ms).remainder < spacing_ms,
        power_for(spacing_ms).watts <= WATT_MILLIS_PER_PULSE,
        WATT_MILLIS_PER_PULSE as int % spacing_ms == 0 ==> power_for(spacing_ms).watts
            * spacing_ms == WATT_MILLIS_PER_PULSE,
{
    let q = 3_600_000int / spacing_ms;
    let r = 3_600_000int % spacing_ms;
    assert(q * spacing_ms + r == 3_600_000 && 0 <= r < spacing_ms && 0 <= q <= 3_600_000)
        by (nonlinear_arith)
        requires
            spacing_ms > 0,
            q == 3_600_000int / spacing_ms,
            r == 3_600_000int % spacing_ms,
    ;
}

} // verus!
