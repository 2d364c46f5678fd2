//! Control logic of a single-stage ascent simulation and of the search for a
//! pitchover angle. The numerical model itself (pressure, thrust, mass,
//! accelerations) is evaluated by the caller; this crate decides, from what the
//! caller observed, what the integrator and the solver do next.

pub mod ascent;
pub mod solver;

pub use ascent::{Action, AscentControl, Phase, Report};
pub use solver::{classify_apogee, Verdict};
