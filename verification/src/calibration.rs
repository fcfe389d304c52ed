use vstd::prelude::*;

verus! {

/// Phases of the pointer calibration.
#[derive(Debug, Clone, Copy, PartialEq, Eq, Structural)]
pub enum CalibStep {
    /// Waiting for the first sample after the start.
    Signal,
    /// Waiting for the player to hold the phone still.
    Steady,
    /// Recording how far the player sweeps left, right, up and down.
    Range,
    /// Finished.
    Done,
}

/// The phase after a sample, given what the sample showed: whether the phone
/// has been held still long enough (or the wait was given up), whether a
/// reference frame could be built from it, and whether the sweep is
/// complete (or took too long). An inactive calibration stays where it is.
pub open spec fn step_after(
    step: CalibStep,
    active: bool,
    steady: bool,
    frame_built: bool,
    sweep_complete: bool,
) -> CalibStep {
    if !active {
        step
    } else {
        match step {
            CalibStep::Signal => CalibStep::Steady,
            CalibStep::Steady => if steady && frame_built { CalibStep::Range } else { CalibStep::Steady },
            CalibStep::Range => if sweep_complete { CalibStep::Done } else { CalibStep::Range },
            CalibStep::Done => CalibStep::Done,
        }
    }
}

impl CalibStep {
    /// The phase after a sample; see [`step_after`].
    pub fn next(self, active: bool, steady: bool, frame_built: bool, sweep_complete: bool) -> (step: CalibStep)
        ensures
            step == step_after(self, active, steady, frame_built, sweep_complete),
    {
        if !active {
            return self;
        }
        match self {
            CalibStep::Signal => CalibStep::Steady,
            CalibStep::Steady => if steady && frame_built { CalibStep::Range } else { CalibStep::Steady },
            CalibStep::Range => if sweep_complete { CalibStep::Done } else { CalibStep::Range },
            CalibStep::Done => CalibStep::Done,
        }
    }
}

/// Position of a phase in the calibration sequence.
pub open spec fn phase_rank(step: CalibStep) -> int {
    match step {
        CalibStep::Signal => 0,
        CalibStep::Steady => 1,
        CalibStep::Range => 2,
        CalibStep::Done => 3,
    }
}

/// Law: a sample never moves the calibration back to an earlier phase, it
/// advances at most one phase at a time, and once done it stays done.
pub proof fn phases_only_advance(
    step: CalibStep,
    active: bool,
    steady: bool,
    frame_built: bool,
    sweep_complete: bool,
)
    ensures
        phase_rank(step) <= phase_rank(step_after(step, active, steady, frame_built, sweep_complete))
            <= phase_rank(step) + 1,
        step == CalibStep::Done ==> step_after(step, active, steady, frame_built, sweep_complete)
            == CalibStep::Done,
{
}

} // verus!
