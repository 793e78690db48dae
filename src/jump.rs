//! Launch energy needed to reach a jump's apex when the ascent is split into
//! segments of different effective gravity.
//!
//! All quantities are fixed-point integers in one coherent unit system:
//! lengths in millimetres, velocities in millimetres per second, gravity in
//! millimetres per second squared, and kinetic energy per unit mass in
//! square millimetres per second squared.
use vstd::arithmetic::div_mod::{lemma_div_by_multiple, lemma_div_is_ordered};
use vstd::arithmetic::mul::lemma_mul_upper_bound;
use vstd::prelude::*;

verus! {

/// Kinetic energy per unit mass at `velocity`: `velocity² / 2`, rounded down.
pub open spec fn energy_at(velocity: nat) -> nat {
    velocity * velocity / 2
}

/// Height climbed while shedding `transferred` energy under `gravity`,
/// rounded down.
pub open spec fn segment_height(transferred: nat, gravity: nat) -> nat {
    transferred / gravity
}

/// A segment that must shed `transferred` energy under `gravity` finishes
/// within `height`.
pub open spec fn climbs_within(height: nat, transferred: nat, gravity: nat) -> bool {
    transferred <= height * gravity
}

/// The calculator's state as `(remaining height, accumulated kinetic energy)`
/// after one more segment with `gravity` that ends at `velocity_threshold`.
pub open spec fn after_segment(state: (nat, nat), gravity: nat, velocity_threshold: nat) -> (nat, nat) {
    let (height, energy) = state;
    if height == 0 || energy_at(velocity_threshold) <= energy {
        state
    } else {
        let transferred = (energy_at(velocity_threshold) - energy) as nat;
        if climbs_within(height, transferred, gravity) {
            ((height - segment_height(transferred, gravity)) as nat, energy + transferred)
        } else {
            (0, energy + height * gravity)
        }
    }
}

/// A single segment whose threshold energy is at least `gravity * total_height`
/// uses up the whole height: the launch energy is exactly
/// `gravity * total_height`, and any later segment changes nothing.
pub proof fn lemma_single_segment_covers_height(
    total_height: nat,
    gravity: nat,
    velocity_threshold: nat,
    later_gravity: nat,
    later_threshold: nat,
)
    requires
        gravity > 0,
        gravity * total_height <= energy_at(velocity_threshold),
    ensures
        after_segment((total_height, 0), gravity, velocity_threshold) == (0nat, gravity
            * total_height),
        after_segment((0, gravity * total_height), later_gravity, later_threshold) == (0nat,
            gravity * total_height),
{
    let e = energy_at(velocity_threshold);
    assert(total_height * gravity == gravity * total_height) by (nonlinear_arith);
    if total_height > 0 {
        assert(gravity * total_height > 0) by (nonlinear_arith)
            requires
                gravity > 0,
                total_height > 0,
        ;
        if climbs_within(total_height, e, gravity) {
            lemma_div_by_multiple(total_height as int, gravity as int);
        }
    } else {
        assert(gravity * total_height == 0);
    }
}

/// A segment whose threshold energy is no more than the energy already
/// accumulated leaves the state unchanged.
pub proof fn lemma_spent_segment_is_noop(state: (nat, nat), gravity: nat, velocity_threshold: nat)
    requires
        energy_at(velocity_threshold) <= state.1,
    ensures
        after_segment(state, gravity, velocity_threshold) == state,
{
}

/// Two segments with rising thresholds that each finish within the height
/// still left give a launch energy of exactly the second threshold's energy.
pub proof fn lemma_two_segments_reach_second_threshold(
    total_height: nat,
    gravity1: nat,
    threshold1: nat,
    gravity2: nat,
    threshold2: nat,
)
    requires
        gravity1 > 0,
        gravity2 > 0,
        threshold1 < threshold2,
        climbs_within(total_height, energy_at(threshold1), gravity1),
        climbs_within(
            (total_height - segment_height(energy_at(threshold1), gravity1)) as nat,
            (energy_at(threshold2) - energy_at(threshold1)) as nat,
            gravity2,
        ),
    ensures
        after_segment(
            after_segment((total_height, 0), gravity1, threshold1),
            gravity2,
            threshold2,
        ).1 == energy_at(threshold2),
{
    let e1 = energy_at(threshold1);
    let e2 = energy_at(threshold2);
    assert(threshold1 * threshold1 <= threshold2 * threshold2) by (nonlinear_arith)
        requires
            threshold1 < threshold2,
    ;
    lemma_div_is_ordered((threshold1 * threshold1) as int, (threshold2 * threshold2) as int, 2);
    if total_height > 0 && e1 > 0 {
        lemma_div_is_ordered(e1 as int, (total_height * gravity1) as int, gravity1 as int);
        lemma_div_by_multiple(total_height as int, gravity1 as int);
    }
    if total_height == 0 {
        assert(total_height * gravity1 == 0);
        assert(total_height * gravity2 == 0);
    }
}

/// The largest energy a segment threshold can stand for.
pub open spec fn energy_cap() -> nat {
    energy_at(u32::MAX as nat)
}

/// Solves, segment by segment from the lowest velocity threshold up, for the
/// kinetic energy a jump must start with to reach a given apex height.
pub struct SegmentedJumpInitialVelocityCalculator {
    height: u64,
    kinetic_energy: u64,
}

impl View for SegmentedJumpInitialVelocityCalculator {
    /// `(remaining height, accumulated kinetic energy)`.
    type V = (nat, nat);

    closed spec fn view(&self) -> (nat, nat) {
        (self.height as nat, self.kinetic_energy as nat)
    }
}

proof fn lemma_energy_bounded(velocity: nat)
    requires
        velocity <= u32::MAX,
    ensures
        energy_at(velocity) <= energy_cap(),
        energy_cap() < 0x8000_0000_0000_0000,
{
    lemma_mul_upper_bound(velocity as int, u32::MAX as int, velocity as int, u32::MAX as int);
    lemma_div_is_ordered((velocity * velocity) as int, u32::MAX as int * u32::MAX as int, 2);
    assert(4294967295nat * 4294967295nat / 2 < 0x8000_0000_0000_0000nat);
}

impl SegmentedJumpInitialVelocityCalculator {
    /// Whether the state stays within the range that the arithmetic covers.
    pub closed spec fn wf(&self) -> bool {
        &&& self.height <= u32::MAX
        &&& self.kinetic_energy <= energy_cap()
    }

    /// A calculator that still has `total_height` to pay for and no energy yet.
    pub fn new(total_height: u32) -> (r: Self)
        ensures
            r.wf(),
            r@ == (total_height as nat, 0nat),
    {
        Self { height: total_height as u64, kinetic_energy: 0 }
    }

    /// Accounts for the next segment of the ascent: one with `gravity` that
    /// lasts while the upward velocity is below `velocity_threshold`.
    /// Segments are to be added from the lowest threshold up.
    pub fn add_segment(&mut self, gravity: u32, velocity_threshold: u32) -> (r: &mut Self)
        requires
            old(self).wf(),
        ensures
            r.wf(),
            r@ == after_segment(old(self)@, gravity as nat, velocity_threshold as nat),
            r@.0 <= old(self)@.0,
            r@.1 >= old(self)@.1,
            *final(self) == *final(r),
    {
        if self.height == 0 {
            return self;
        }
        let v = velocity_threshold as u64;
        proof {
            lemma_mul_upper_bound(v as int, u32::MAX as int, v as int, u32::MAX as int);
            lemma_energy_bounded(v as nat);
        }
        let at_threshold: u64 = v * v / 2;
        if at_threshold <= self.kinetic_energy {
            return self;
        }
        let transferred: u64 = at_threshold - self.kinetic_energy;
        let g = gravity as u64;
        proof {
            lemma_mul_upper_bound(self.height as int, u32::MAX as int, g as int, u32::MAX as int);
        }
        let height_energy: u64 = self.height * g;
        if transferred <= height_energy {
            proof {
                lemma_div_is_ordered(transferred as int, height_energy as int, g as int);
                lemma_div_by_multiple(self.height as int, g as int);
            }
            self.height = self.height - transferred / g;
            self.kinetic_energy = at_threshold;
        } else {
            self.kinetic_energy = self.kinetic_energy + height_energy;
            self.height = 0;
        }
        self
    }

    /// The launch kinetic energy accumulated so far; the launch speed is
    /// `sqrt(2 * kinetic_energy)`.
    pub fn kinetic_energy(&self) -> (r: u64)
        ensures
            r == self@.1,
    {
        self.kinetic_energy
    }
}

} // verus!
