//! The order in which the stages of one tick run.
//!
//! Every stage reads what the stage before it has committed, so the host
//! finishes one stage for the whole worm before it asks for the next.
use vstd::prelude::*;

verus! {

/// Number of stages in a tick.
pub const STAGES: u8 = 10;

/// One stage of a tick.
#[derive(Clone, Copy, Debug, PartialEq, Eq, Structural)]
pub enum Stage {
    /// Set every accumulated force to zero.
    ForceReset,
    /// Add the force of every spring to its two ends.
    SpringForce,
    /// Add the fluid resistance against sideways motion of dragging edges.
    EdgeDrag,
    /// Add the quadratic drag of dragging nodes.
    PointDrag,
    /// Move every unlocked node by one position-only step.
    Integrate,
    /// Advance the neuron voltages.
    Voltages,
    /// Squash the voltages into outputs.
    Outputs,
    /// Record outputs, activity, fitness and flux.
    History,
    /// Nudge the weight centres by the reward.
    Adapt,
    /// Set the rest length of every muscle.
    Mapping,
}

impl Stage {
    /// Position of the stage within a tick, counted from 0.
    pub open spec fn rank(self) -> int {
        match self {
            Stage::ForceReset => 0,
            Stage::SpringForce => 1,
            Stage::EdgeDrag => 2,
            Stage::PointDrag => 3,
            Stage::Integrate => 4,
            Stage::Voltages => 5,
            Stage::Outputs => 6,
            Stage::History => 7,
            Stage::Adapt => 8,
            Stage::Mapping => 9,
        }
    }

    /// The stage that opens a tick.
    pub fn first() -> (s: Stage)
        ensures
            s.rank() == 0,
    {
        Stage::ForceReset
    }

    /// Position of the stage within a tick, counted from 0.
    pub fn order(self) -> (k: u8)
        ensures
            k == self.rank(),
            k < STAGES,
    {
        match self {
            Stage::ForceReset => 0,
            Stage::SpringForce => 1,
            Stage::EdgeDrag => 2,
            Stage::PointDrag => 3,
            Stage::Integrate => 4,
            Stage::Voltages => 5,
            Stage::Outputs => 6,
            Stage::History => 7,
            Stage::Adapt => 8,
            Stage::Mapping => 9,
        }
    }

    /// The stage at position `k`, if a tick has that many stages.
    pub fn at(k: u8) -> (s: Option<Stage>)
        ensures
            k < STAGES ==> s.is_some() && s.unwrap().rank() == k,
            k >= STAGES ==> s.is_none(),
    {
        match k {
            0 => Some(Stage::ForceReset),
            1 => Some(Stage::SpringForce),
            2 => Some(Stage::EdgeDrag),
            3 => Some(Stage::PointDrag),
            4 => Some(Stage::Integrate),
            5 => Some(Stage::Voltages),
            6 => Some(Stage::Outputs),
            7 => Some(Stage::History),
            8 => Some(Stage::Adapt),
            9 => Some(Stage::Mapping),
            _ => None,
        }
    }

    /// The stage that must be complete before `self` starts; none for the
    /// stage that opens a tick.
    pub fn previous(self) -> (s: Option<Stage>)
        ensures
            self.rank() > 0 ==> s.is_some() && s.unwrap().rank() == self.rank() - 1,
            self.rank() == 0 ==> s.is_none(),
    {
        let k: u8 = self.order();
        if k == 0 {
            None
        } else {
            Stage::at(k - 1)
        }
    }

    /// The stage to run once `self` is complete; none when the tick is over.
    pub fn next(self) -> (s: Option<Stage>)
        ensures
            self.rank() + 1 < STAGES ==> s.is_some() && s.unwrap().rank() == self.rank() + 1,
            self.rank() + 1 == STAGES ==> s.is_none(),
    {
        Stage::at(self.order() + 1)
    }
}

/// Two stages at the same position are the same stage, so the conditions on
/// `first`, `at` and `next` each single out one stage.
pub proof fn lemma_rank_names_stage(a: Stage, b: Stage)
    requires
        a.rank() == b.rank(),
    ensures
        a == b,
{
}

/// Forces are complete before nodes move, and the controller acts on the
/// outputs of the same tick: the stages run in the order in which each one
/// feeds the next.
pub proof fn lemma_stage_order()
    ensures
        Stage::ForceReset.rank() < Stage::SpringForce.rank() < Stage::Integrate.rank(),
        Stage::ForceReset.rank() < Stage::EdgeDrag.rank() < Stage::Integrate.rank(),
        Stage::ForceReset.rank() < Stage::PointDrag.rank() < Stage::Integrate.rank(),
        Stage::Integrate.rank() < Stage::Voltages.rank() < Stage::Outputs.rank(),
        Stage::Outputs.rank() < Stage::History.rank() < Stage::Adapt.rank(),
        Stage::Adapt.rank() < Stage::Mapping.rank(),
{
}

} // verus!
