use vstd::prelude::*;

verus! {

/// One phase of a time step.
#[derive(Clone, Copy, Debug, PartialEq, Eq, Structural)]
pub enum Phase {
    /// Every interaction adds its forces to the particles' accumulators.
    Interactions,
    /// Every particle integrates its forces and clears its accumulator.
    Integrate,
    /// Every constraint is projected in a dynamic pass.
    Constraints,
    /// Every particle's velocity is rederived from its position change.
    Velocities,
    /// Simulated time advances by the whole step.
    AdvanceTime,
}

/// The phase at position `k` within a substep.
pub open spec fn substep_phase(k: int) -> Phase {
    if k == 0 {
        Phase::Interactions
    } else if k == 1 {
        Phase::Integrate
    } else if k == 2 {
        Phase::Constraints
    } else {
        Phase::Velocities
    }
}

/// The phases of one call to step forward: nothing when the system is paused
/// or the step is zero; otherwise `substeps` rounds of forces, integration,
/// constraint projection and velocity reconstruction, in that order, and then
/// the advance of time.
pub open spec fn step_schedule(running: bool, dt_is_zero: bool, substeps: nat) -> Seq<Phase> {
    if !running || dt_is_zero {
        Seq::empty()
    } else {
        Seq::new(4 * substeps, |k: int| substep_phase(k % 4)).push(Phase::AdvanceTime)
    }
}

pub fn step_plan(running: bool, dt_is_zero: bool, substeps: u32) -> (plan: Vec<Phase>)
    ensures
        plan@ == step_schedule(running, dt_is_zero, substeps as nat),
{
    let mut plan: Vec<Phase> = Vec::new();
    if !running || dt_is_zero {
        return plan;
    }
    let ghost rounds = Seq::new(4 * substeps as nat, |k: int| substep_phase(k % 4));
    let mut s: u32 = 0;
    while s < substeps
        invariant
            s <= substeps,
            rounds == Seq::new(4 * substeps as nat, |k: int| substep_phase(k % 4)),
            plan@ == rounds.take(4 * s as int),
        decreases substeps - s,
    {
        plan.push(Phase::Interactions);
        plan.push(Phase::Integrate);
        plan.push(Phase::Constraints);
        plan.push(Phase::Velocities);
        assert(plan@ =~= rounds.take(4 * s + 4)) by {
            assert forall|k: int| 4 * s <= k < 4 * s + 4 implies #[trigger] (k % 4) == k - 4 * s by {
            }
        }
        s = s + 1;
    }
    assert(rounds.take(4 * substeps as int) =~= rounds);
    plan.push(Phase::AdvanceTime);
    plan
}

} // verus!
