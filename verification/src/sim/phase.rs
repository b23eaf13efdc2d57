//! The demo ride's state machine phases.
use vstd::prelude::*;

verus! {

/// Stages of the scripted demo run.
#[derive(Clone, Copy, PartialEq, Eq, Debug, Structural)]
pub enum DemoPhase {
    Launch,
    AccelRun,
    TopSpeedHold,
    DecelRun,
    Settle,
}

/// The phase a run enters when `p` ends: launch → accelerate → top-speed
/// hold → decelerate to a stop → settle → launch again.
pub open spec fn spec_next_phase(p: DemoPhase) -> DemoPhase {
    match p {
        DemoPhase::Launch => DemoPhase::AccelRun,
        DemoPhase::AccelRun => DemoPhase::TopSpeedHold,
        DemoPhase::TopSpeedHold => DemoPhase::DecelRun,
        DemoPhase::DecelRun => DemoPhase::Settle,
        DemoPhase::Settle => DemoPhase::Launch,
    }
}

impl DemoPhase {
    /// The phase that follows this one when its exit condition is met.
    pub fn next(self) -> (p: DemoPhase)
        ensures
            p == spec_next_phase(self),
    {
        match self {
            DemoPhase::Launch => DemoPhase::AccelRun,
            DemoPhase::AccelRun => DemoPhase::TopSpeedHold,
            DemoPhase::TopSpeedHold => DemoPhase::DecelRun,
            DemoPhase::DecelRun => DemoPhase::Settle,
            DemoPhase::Settle => DemoPhase::Launch,
        }
    }
}

/// The demo repeats: five phase changes bring a run back to where it was,
/// and no phase is skipped on the way.
pub proof fn lemma_ride_repeats(p: DemoPhase)
    ensures
        spec_next_phase(spec_next_phase(spec_next_phase(spec_next_phase(spec_next_phase(p)))))
            == p,
        spec_next_phase(p) != p,
{
}


/// A run goes launch → accelerate → top-speed hold → decelerate → settle →
/// launch.
pub proof fn lemma_phase_order(p: DemoPhase)
    ensures
        p == DemoPhase::Launch ==> spec_next_phase(p) == DemoPhase::AccelRun,
        p == DemoPhase::AccelRun ==> spec_next_phase(p) == DemoPhase::TopSpeedHold,
        p == DemoPhase::TopSpeedHold ==> spec_next_phase(p) == DemoPhase::DecelRun,
        p == DemoPhase::DecelRun ==> spec_next_phase(p) == DemoPhase::Settle,
        p == DemoPhase::Settle ==> spec_next_phase(p) == DemoPhase::Launch,
{
}

} // verus!
