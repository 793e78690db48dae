//! What the physics backend reports each frame: the nearest solid ground and
//! the passable ("ghost") platforms below the character.
//!
//! Lengths are in millimetres and velocities in millimetres per second.
use vstd::prelude::*;

verus! {

/// A surface hit by the downward cast.
#[derive(Clone, Copy, PartialEq, Eq, Structural, Debug)]
pub struct TnuaProximitySensorOutput {
    /// Handle of the body that was hit.
    pub entity: u64,
    /// Distance from the cast's origin to the surface; larger is farther.
    pub proximity: i64,
}

/// A velocity in three dimensions.
#[derive(Clone, Copy, PartialEq, Eq, Structural, Debug)]
pub struct TnuaVelocity {
    pub x: i64,
    pub y: i64,
    pub z: i64,
}

/// The nearest solid ground below the character.
#[derive(Clone, Copy, PartialEq, Eq, Structural, Debug)]
pub struct TnuaProximitySensor {
    /// Distance to the nearest solid ground, if any is in range.
    pub distance: Option<i64>,
    /// Velocity of the sensed surface relative to the character.
    pub velocity: TnuaVelocity,
    /// The hit the character stands on this frame. Fall-through logic may
    /// replace it with a ghost platform to be treated as solid ground.
    pub output: Option<TnuaProximitySensorOutput>,
}

/// Every passable platform detected this frame, nearest first.
#[derive(Debug)]
pub struct TnuaGhostSensor(pub Vec<TnuaProximitySensorOutput>);

impl TnuaProximitySensor {
    /// This sensor with its selected hit replaced by `output`.
    pub open spec fn with_output(self, output: Option<TnuaProximitySensorOutput>) -> Self {
        TnuaProximitySensor { distance: self.distance, velocity: self.velocity, output }
    }
}

impl TnuaGhostSensor {
    /// The hits, nearest first.
    pub open spec fn hits(&self) -> Seq<TnuaProximitySensorOutput> {
        self.0@
    }
}

} // verus!
