use vstd::prelude::*;

verus! {

/// The part of a run the vehicle is in.
#[derive(PartialEq, Eq, Structural, Clone, Copy, Debug)]
pub enum Phase {
    /// Climbing straight up until the pitchover altitude is reached.
    Vertical,
    /// Flying at the pitchover angle until the burn ends.
    Burn,
    /// The run is over: the burn ended or the vehicle hit the ground.
    Finished,
}

/// What the integrator is told to do next.
#[derive(PartialEq, Eq, Structural, Clone, Copy, Debug)]
pub enum Action {
    /// Advance the vehicle by one timestep, then report whether it is below ground.
    Advance,
    /// Set the flight-path angle to the pitchover angle; the burn phase begins.
    Pitchover,
    /// Stop advancing: the run is complete.
    Stop,
}

/// Decides the course of one ascent run: a vertical climb up to the pitchover
/// altitude, the pitchover, then flight until the burn time has elapsed.
/// A ground impact, once seen, ends all further advancing in the run.
#[derive(PartialEq, Eq, Structural, Clone, Copy, Debug)]
pub struct AscentControl {
    pub phase: Phase,
    pub hit_ground: bool,
}

/// The control state and action that follow `c`, given whether the vehicle is
/// below the pitchover altitude and whether the elapsed time is within the burn.
pub open spec fn next_spec(c: AscentControl, below_pitch_altitude: bool, within_burn: bool) -> (
    AscentControl,
    Action,
) {
    match c.phase {
        Phase::Vertical => if below_pitch_altitude && !c.hit_ground {
            (c, Action::Advance)
        } else {
            (AscentControl { phase: Phase::Burn, ..c }, Action::Pitchover)
        },
        Phase::Burn => if within_burn && !c.hit_ground {
            (c, Action::Advance)
        } else {
            (AscentControl { phase: Phase::Finished, ..c }, Action::Stop)
        },
        Phase::Finished => (c, Action::Stop),
    }
}

/// The control state after a timestep whose resulting altitude was (or was not)
/// below the launch point.
pub open spec fn stepped_spec(c: AscentControl, below_ground: bool) -> AscentControl {
    AscentControl { hit_ground: c.hit_ground || below_ground, ..c }
}

/// What the integrator hands back to the controller during a run.
pub enum Report {
    /// An observation before a decision; answered by `next_action`.
    Check { below_pitch_altitude: bool, within_burn: bool },
    /// The outcome of a timestep; handed to `record_step`.
    Stepped { below_ground: bool },
}

/// The control state after a sequence of reports, and the actions decided on
/// the way, one per `Check`.
pub open spec fn run(c: AscentControl, reports: Seq<Report>) -> (AscentControl, Seq<Action>)
    decreases reports.len(),
{
    if reports.len() == 0 {
        (c, seq![])
    } else {
        let (c1, acts) = run(c, reports.drop_last());
        match reports.last() {
            Report::Check { below_pitch_altitude, within_burn } => {
                let (c2, a) = next_spec(c1, below_pitch_altitude, within_burn);
                (c2, acts.push(a))
            },
            Report::Stepped { below_ground } => (stepped_spec(c1, below_ground), acts),
        }
    }
}

/// Position of a phase in the order in which a run goes through them.
pub open spec fn phase_rank(p: Phase) -> nat {
    match p {
        Phase::Vertical => 0,
        Phase::Burn => 1,
        Phase::Finished => 2,
    }
}

/// Once a ground impact has been recorded, it stays recorded, and whatever the
/// vehicle reports afterwards the controller never again asks for a timestep.
pub proof fn lemma_grounded_never_advances(c: AscentControl, reports: Seq<Report>)
    requires
        c.hit_ground,
    ensures
        run(c, reports).0.hit_ground,
        forall|i: int| 0 <= i < run(c, reports).1.len() ==> run(c, reports).1[i] != Action::Advance,
    decreases reports.len(),
{
    if reports.len() > 0 {
        lemma_grounded_never_advances(c, reports.drop_last());
    }
}

/// A run never returns to an earlier phase, and once it is finished every
/// decision is to stop.
pub proof fn lemma_phases_only_advance(c: AscentControl, reports: Seq<Report>)
    ensures
        phase_rank(run(c, reports).0.phase) >= phase_rank(c.phase),
        c.phase == Phase::Finished ==> forall|i: int|
            0 <= i < run(c, reports).1.len() ==> run(c, reports).1[i] == Action::Stop,
    decreases reports.len(),
{
    if reports.len() > 0 {
        lemma_phases_only_advance(c, reports.drop_last());
    }
}

/// A run pitches over at most once: after a pitchover the vehicle is past the
/// vertical phase for good, so no later decision is a second pitchover.
pub proof fn lemma_single_pitchover(c: AscentControl, reports: Seq<Report>)
    ensures
        forall|i: int|
            0 <= i < run(c, reports).1.len() && run(c, reports).1[i] == Action::Pitchover
                ==> phase_rank(run(c, reports).0.phase) >= 1,
        forall|i: int, j: int|
            0 <= i < j < run(c, reports).1.len() && run(c, reports).1[i] == Action::Pitchover
                ==> run(c, reports).1[j] != Action::Pitchover,
    decreases reports.len(),
{
    if reports.len() > 0 {
        let prev = reports.drop_last();
        lemma_single_pitchover(c, prev);
    }
}

impl AscentControl {
    /// The state at the start of a run: climbing vertically, not on the ground.
    pub fn new() -> (r: AscentControl)
        ensures
            r.phase == Phase::Vertical,
            !r.hit_ground,
    {
        AscentControl { phase: Phase::Vertical, hit_ground: false }
    }

    /// Decides the next action from the current observation of the vehicle.
    /// `below_pitch_altitude` is whether the altitude is below the pitchover
    /// altitude; `within_burn` is whether the elapsed time is at most the burn time.
    pub fn next_action(&mut self, below_pitch_altitude: bool, within_burn: bool) -> (a: Action)
        ensures
            (*final(self), a) == next_spec(*old(self), below_pitch_altitude, within_burn),
    {
        match self.phase {
            Phase::Vertical => {
                if below_pitch_altitude && !self.hit_ground {
                    Action::Advance
                } else {
                    self.phase = Phase::Burn;
                    Action::Pitchover
                }
            },
            Phase::Burn => {
                if within_burn && !self.hit_ground {
                    Action::Advance
                } else {
                    self.phase = Phase::Finished;
                    Action::Stop
                }
            },
            Phase::Finished => Action::Stop,
        }
    }

    /// Records the outcome of a timestep: whether the altitude it reached is
    /// below the launch point. Once a ground impact is recorded it stays recorded.
    pub fn record_step(&mut self, below_ground: bool)
        ensures
            *final(self) == stepped_spec(*old(self), below_ground),
    {
        if below_ground {
            self.hit_ground = true;
        }
    }
}

} // verus!
