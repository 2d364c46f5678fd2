use vstd::prelude::*;

verus! {

/// How the apogee reached with a candidate angle compares with the target band.
#[derive(PartialEq, Eq, Structural, Clone, Copy, Debug)]
pub enum Verdict {
    /// The apogee is below the band: the lower end of the bracket moves up to the candidate.
    TooLow,
    /// The apogee is above the band: the upper end of the bracket moves down to the candidate.
    TooHigh,
    /// The apogee lies within the band: the candidate is the answer.
    Converged,
}

/// The verdict on a candidate, given whether its apogee lies below the lower
/// edge of the band and whether it lies above the upper edge. The lower edge is
/// tested first.
pub open spec fn verdict_spec(below_band: bool, above_band: bool) -> Verdict {
    if below_band {
        Verdict::TooLow
    } else if above_band {
        Verdict::TooHigh
    } else {
        Verdict::Converged
    }
}

/// Judges a candidate angle of the bisection by where its apogee fell.
pub fn classify_apogee(below_band: bool, above_band: bool) -> (v: Verdict)
    ensures
        v == verdict_spec(below_band, above_band),
        v == Verdict::Converged <==> !below_band && !above_band,
{
    if below_band {
        Verdict::TooLow
    } else if above_band {
        Verdict::TooHigh
    } else {
        Verdict::Converged
    }
}

} // verus!
