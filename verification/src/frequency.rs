use vstd::prelude::*;

verus! {

/// The enumerated time-step frequencies the simulation driver accepts. The
/// driver's time step `dt` is one year divided by the period count below.
#[derive(Clone, Copy, Debug, PartialEq, Eq, Structural)]
pub enum Frequency {
    Daily,
    Weekly,
    Monthly,
}

/// How many time steps of the given frequency make up one year.
pub open spec fn spec_periods_per_year(f: Frequency) -> u32 {
    match f {
        Frequency::Daily => 252,
        Frequency::Weekly => 52,
        Frequency::Monthly => 12,
    }
}

/// The period count whose reciprocal is the simulation time step `dt`:
/// 252 trading days, 52 weeks, or 12 months per year.
pub fn periods_per_year(f: Frequency) -> (r: u32)
    ensures
        r == spec_periods_per_year(f),
{
    match f {
        Frequency::Daily => 252,
        Frequency::Weekly => 52,
        Frequency::Monthly => 12,
    }
}

} // verus!
