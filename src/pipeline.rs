//! The stages that run, in order, once per simulation tick for each
//! controlled character.
use vstd::prelude::*;

verus! {

/// Umbrella set for every stage of the pipeline.
#[derive(Clone, Copy, PartialEq, Eq, Structural, Debug, Hash)]
pub struct TnuaSystemSet;

/// The stages of the pipeline, in the order they run within a tick.
#[derive(Clone, Copy, PartialEq, Eq, Structural, Debug, Hash)]
pub enum TnuaPipelineStages {
    /// Data is read from the physics backend.
    Sensors,
    /// Data is propagated through the subservient sensors.
    SubservientSensors,
    /// How the entity should be moved is decided.
    Logic,
    /// Forces are applied in the physics backend.
    Motors,
}

/// The set in which the user's controls are to be applied.
#[derive(Clone, Copy, PartialEq, Eq, Structural, Debug, Hash)]
pub struct TnuaUserControlsSystemSet;

/// Position of `stage` within a tick, from zero.
pub open spec fn stage_rank(stage: TnuaPipelineStages) -> nat {
    match stage {
        TnuaPipelineStages::Sensors => 0,
        TnuaPipelineStages::SubservientSensors => 1,
        TnuaPipelineStages::Logic => 2,
        TnuaPipelineStages::Motors => 3,
    }
}

impl TnuaPipelineStages {
    /// Whether this stage must complete before `other` starts.
    pub fn runs_before(&self, other: &TnuaPipelineStages) -> (r: bool)
        ensures
            r == (stage_rank(*self) < stage_rank(*other)),
    {
        self.rank() < other.rank()
    }

    /// The stage that follows this one within a tick, if any.
    pub fn next(&self) -> (r: Option<TnuaPipelineStages>)
        ensures
            match r {
                Some(n) => stage_rank(n) == stage_rank(*self) + 1,
                None => stage_rank(*self) == 3,
            },
    {
        match self {
            TnuaPipelineStages::Sensors => Some(TnuaPipelineStages::SubservientSensors),
            TnuaPipelineStages::SubservientSensors => Some(TnuaPipelineStages::Logic),
            TnuaPipelineStages::Logic => Some(TnuaPipelineStages::Motors),
            TnuaPipelineStages::Motors => None,
        }
    }

    fn rank(&self) -> (r: u8)
        ensures
            r == stage_rank(*self),
    {
        match self {
            TnuaPipelineStages::Sensors => 0,
            TnuaPipelineStages::SubservientSensors => 1,
            TnuaPipelineStages::Logic => 2,
            TnuaPipelineStages::Motors => 3,
        }
    }
}

} // verus!
