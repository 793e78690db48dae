//! Dropping through passable platforms: a per-character state machine that
//! remembers which platforms are being passed, and the control schemes that
//! turn crouch input into fall-through decisions.
use crate::sensor::{TnuaGhostSensor, TnuaProximitySensor, TnuaProximitySensorOutput};
use vstd::prelude::*;

verus! {

/// Where a character stands with respect to passable platforms.
#[derive(Clone, Copy, PartialEq, Eq, Structural, Debug)]
pub enum FallState {
    /// Not falling through anything.
    Idle,
    /// Falling through one platform for one press of crouch.
    FallingThroughOne,
    /// Falling through every platform below while crouch is held.
    FallingThroughContinuous,
}

/// A ghost hit far enough below to count as a platform to stand on or fall
/// through.
pub open spec fn eligible(hit: TnuaProximitySensorOutput, min_proximity: i64) -> bool {
    min_proximity <= hit.proximity
}

/// Some eligible hit of `ghosts` belongs to `entity`.
pub open spec fn detected(ghosts: Seq<TnuaProximitySensorOutput>, min_proximity: i64, entity: u64) -> bool {
    exists|i: int|
        0 <= i < ghosts.len() && eligible(#[trigger] ghosts[i], min_proximity) && ghosts[i].entity
            == entity
}

/// The entities of `passing` that are still detected, in their order.
pub open spec fn kept(passing: Seq<u64>, ghosts: Seq<TnuaProximitySensorOutput>, min_proximity: i64) -> Seq<u64>
    decreases passing.len(),
{
    if passing.len() == 0 {
        Seq::empty()
    } else {
        let rest = kept(passing.drop_last(), ghosts, min_proximity);
        if detected(ghosts, min_proximity, passing.last()) {
            rest.push(passing.last())
        } else {
            rest
        }
    }
}

/// The entities of the eligible hits of `ghosts`, nearest first.
pub open spec fn eligible_entities(ghosts: Seq<TnuaProximitySensorOutput>, min_proximity: i64) -> Seq<u64>
    decreases ghosts.len(),
{
    if ghosts.len() == 0 {
        Seq::empty()
    } else {
        let rest = eligible_entities(ghosts.drop_last(), min_proximity);
        if eligible(ghosts.last(), min_proximity) {
            rest.push(ghosts.last().entity)
        } else {
            rest
        }
    }
}

/// The nearest eligible hit that is not being passed through.
pub open spec fn first_free(
    ghosts: Seq<TnuaProximitySensorOutput>,
    min_proximity: i64,
    passing: Seq<u64>,
) -> Option<TnuaProximitySensorOutput>
    decreases ghosts.len(),
{
    if ghosts.len() == 0 {
        None
    } else if eligible(ghosts[0], min_proximity) && !passing.contains(ghosts[0].entity) {
        Some(ghosts[0])
    } else {
        first_free(ghosts.drop_first(), min_proximity, passing)
    }
}

/// The ground selected once the character stands on the nearest platform it
/// is not passing through; `output` when there is none.
pub open spec fn stand_on(
    output: Option<TnuaProximitySensorOutput>,
    ghosts: Seq<TnuaProximitySensorOutput>,
    min_proximity: i64,
    passing: Seq<u64>,
) -> Option<TnuaProximitySensorOutput> {
    match first_free(ghosts, min_proximity, passing) {
        Some(hit) => Some(hit),
        None => output,
    }
}

/// Helper state `(state, platforms being passed)` after crouch is released.
pub open spec fn released(
    helper: (FallState, Seq<u64>),
    ghosts: Seq<TnuaProximitySensorOutput>,
    min_proximity: i64,
) -> (FallState, Seq<u64>) {
    (FallState::Idle, kept(helper.1, ghosts, min_proximity))
}

/// Helper state after a frame of crouch held with one platform per press: a
/// press starts passing the nearest free platform; holding on keeps passing
/// the platforms of the current step until they are left behind.
pub open spec fn stepped(
    helper: (FallState, Seq<u64>),
    ghosts: Seq<TnuaProximitySensorOutput>,
    min_proximity: i64,
    just_pressed: bool,
) -> (FallState, Seq<u64>) {
    let still = kept(helper.1, ghosts, min_proximity);
    if just_pressed {
        match first_free(ghosts, min_proximity, still) {
            Some(hit) => (FallState::FallingThroughOne, still.push(hit.entity)),
            None => (FallState::Idle, still),
        }
    } else if helper.0 == FallState::FallingThroughOne && still.len() > 0 {
        (FallState::FallingThroughOne, still)
    } else {
        (FallState::Idle, still)
    }
}

/// Helper state after a frame of crouch held with continuous falling: every
/// eligible platform is passed.
pub open spec fn falling_on(ghosts: Seq<TnuaProximitySensorOutput>, min_proximity: i64) -> (FallState, Seq<u64>) {
    let all = eligible_entities(ghosts, min_proximity);
    if all.len() > 0 {
        (FallState::FallingThroughContinuous, all)
    } else {
        (FallState::Idle, all)
    }
}

fn contains_entity(entities: &Vec<u64>, entity: u64) -> (r: bool)
    ensures
        r == entities@.contains(entity),
{
    let mut i: usize = 0;
    while i < entities.len()
        invariant
            0 <= i <= entities@.len(),
            forall|j: int| 0 <= j < i ==> entities@[j] != entity,
        decreases entities.len() - i,
    {
        if entities[i] == entity {
            return true;
        }
        i = i + 1;
    }
    false
}

fn is_detected(ghosts: &Vec<TnuaProximitySensorOutput>, min_proximity: i64, entity: u64) -> (r: bool)
    ensures
        r == detected(ghosts@, min_proximity, entity),
{
    let mut i: usize = 0;
    while i < ghosts.len()
        invariant
            0 <= i <= ghosts@.len(),
            forall|j: int|
                0 <= j < i ==> !(eligible(#[trigger] ghosts@[j], min_proximity) && ghosts@[j].entity
                    == entity),
        decreases ghosts.len() - i,
    {
        let hit = ghosts[i];
        if min_proximity <= hit.proximity && hit.entity == entity {
            return true;
        }
        i = i + 1;
    }
    false
}

fn still_detected(passing: &Vec<u64>, ghosts: &Vec<TnuaProximitySensorOutput>, min_proximity: i64) -> (r: Vec<u64>)
    ensures
        r@ == kept(passing@, ghosts@, min_proximity),
{
    let mut out: Vec<u64> = Vec::new();
    let mut i: usize = 0;
    while i < passing.len()
        invariant
            0 <= i <= passing@.len(),
            out@ == kept(passing@.subrange(0, i as int), ghosts@, min_proximity),
        decreases passing.len() - i,
    {
        let entity = passing[i];
        assert(passing@.subrange(0, i + 1).drop_last() =~= passing@.subrange(0, i as int));
        if is_detected(ghosts, min_proximity, entity) {
            out.push(entity);
        }
        i = i + 1;
    }
    assert(passing@.subrange(0, passing@.len() as int) =~= passing@);
    out
}

fn all_eligible(ghosts: &Vec<TnuaProximitySensorOutput>, min_proximity: i64) -> (r: Vec<u64>)
    ensures
        r@ == eligible_entities(ghosts@, min_proximity),
{
    let mut out: Vec<u64> = Vec::new();
    let mut i: usize = 0;
    while i < ghosts.len()
        invariant
            0 <= i <= ghosts@.len(),
            out@ == eligible_entities(ghosts@.subrange(0, i as int), min_proximity),
        decreases ghosts.len() - i,
    {
        let hit = ghosts[i];
        assert(ghosts@.subrange(0, i + 1).drop_last() =~= ghosts@.subrange(0, i as int));
        if min_proximity <= hit.proximity {
            out.push(hit.entity);
        }
        i = i + 1;
    }
    assert(ghosts@.subrange(0, ghosts@.len() as int) =~= ghosts@);
    out
}

fn nearest_free(ghosts: &Vec<TnuaProximitySensorOutput>, min_proximity: i64, passing: &Vec<u64>) -> (r: Option<TnuaProximitySensorOutput>)
    ensures
        r == first_free(ghosts@, min_proximity, passing@),
{
    let mut i: usize = 0;
    assert(ghosts@.subrange(0, ghosts@.len() as int) =~= ghosts@);
    while i < ghosts.len()
        invariant
            0 <= i <= ghosts@.len(),
            first_free(ghosts@, min_proximity, passing@) == first_free(
                ghosts@.subrange(i as int, ghosts@.len() as int),
                min_proximity,
                passing@,
            ),
        decreases ghosts.len() - i,
    {
        let hit = ghosts[i];
        proof {
            let rest = ghosts@.subrange(i as int, ghosts@.len() as int);
            assert(rest.drop_first() =~= ghosts@.subrange(i + 1, ghosts@.len() as int));
            assert(rest[0] == hit);
        }
        if min_proximity <= hit.proximity && !contains_entity(passing, hit.entity) {
            return Some(hit);
        }
        i = i + 1;
    }
    None
}

/// Remembers, across frames, which passable platforms a character is
/// dropping through, so that a press of crouch can drop it through exactly
/// one of them.
pub struct TnuaSimpleFallThroughPlatformsHelper {
    state: FallState,
    falling_through: Vec<u64>,
}

impl View for TnuaSimpleFallThroughPlatformsHelper {
    /// `(state, entities of the platforms being passed)`.
    type V = (FallState, Seq<u64>);

    closed spec fn view(&self) -> (FallState, Seq<u64>) {
        (self.state, self.falling_through@)
    }
}

impl TnuaSimpleFallThroughPlatformsHelper {
    /// A helper that is not falling through anything.
    pub fn new() -> (r: Self)
        ensures
            r@ == (FallState::Idle, Seq::<u64>::empty()),
    {
        TnuaSimpleFallThroughPlatformsHelper { state: FallState::Idle, falling_through: Vec::new() }
    }

    /// The current state.
    pub fn state(&self) -> (r: FallState)
        ensures
            r == self@.0,
    {
        self.state
    }

    /// The entities of the platforms being passed through.
    pub fn falling_through(&self) -> (r: &Vec<u64>)
        ensures
            r@ == self@.1,
    {
        &self.falling_through
    }

    /// Crouch is not held: finish passing the platforms already being passed
    /// and stand on the nearest other platform.
    pub fn dont_fall(
        &mut self,
        proximity_sensor: &mut TnuaProximitySensor,
        ghost_sensor: &TnuaGhostSensor,
        min_proximity: i64,
    )
        ensures
            final(self)@ == released(old(self)@, ghost_sensor.hits(), min_proximity),
            *final(proximity_sensor) == old(proximity_sensor).with_output(
                stand_on(old(proximity_sensor).output, ghost_sensor.hits(), min_proximity, final(self)@.1),
            ),
    {
        let still = still_detected(&self.falling_through, &ghost_sensor.0, min_proximity);
        if let Some(hit) = nearest_free(&ghost_sensor.0, min_proximity, &still) {
            proximity_sensor.output = Some(hit);
        }
        self.state = FallState::Idle;
        self.falling_through = still;
    }

    /// Crouch is held and falls go one platform per press: a fresh press
    /// starts passing the nearest free platform; while held, the platforms of
    /// that step keep being passed and the next one below is stood on.
    /// Returns whether the character is falling through a platform.
    pub fn try_falling_one_step_at_a_time(
        &mut self,
        proximity_sensor: &mut TnuaProximitySensor,
        ghost_sensor: &TnuaGhostSensor,
        min_proximity: i64,
        just_pressed: bool,
    ) -> (r: bool)
        ensures
            final(self)@ == stepped(old(self)@, ghost_sensor.hits(), min_proximity, just_pressed),
            *final(proximity_sensor) == old(proximity_sensor).with_output(
                stand_on(old(proximity_sensor).output, ghost_sensor.hits(), min_proximity, final(self)@.1),
            ),
            r == (final(self)@.0 == FallState::FallingThroughOne),
    {
        let mut still = still_detected(&self.falling_through, &ghost_sensor.0, min_proximity);
        let next_state = if just_pressed {
            match nearest_free(&ghost_sensor.0, min_proximity, &still) {
                Some(hit) => {
                    still.push(hit.entity);
                    FallState::FallingThroughOne
                },
                None => FallState::Idle,
            }
        } else if self.state == FallState::FallingThroughOne && still.len() > 0 {
            FallState::FallingThroughOne
        } else {
            FallState::Idle
        };
        if let Some(hit) = nearest_free(&ghost_sensor.0, min_proximity, &still) {
            proximity_sensor.output = Some(hit);
        }
        self.state = next_state;
        self.falling_through = still;
        next_state == FallState::FallingThroughOne
    }

    /// Crouch is held and falls go on through every platform below. Returns
    /// whether the character is falling through a platform.
    pub fn try_falling(&mut self, ghost_sensor: &TnuaGhostSensor, min_proximity: i64) -> (r: bool)
        ensures
            final(self)@ == falling_on(ghost_sensor.hits(), min_proximity),
            r == (final(self)@.0 == FallState::FallingThroughContinuous),
    {
        let all = all_eligible(&ghost_sensor.0, min_proximity);
        let falling = all.len() > 0;
        self.state = if falling {
            FallState::FallingThroughContinuous
        } else {
            FallState::Idle
        };
        self.falling_through = all;
        falling
    }
}

impl Default for TnuaSimpleFallThroughPlatformsHelper {
    fn default() -> (r: Self)
        ensures
            r@ == (FallState::Idle, Seq::<u64>::empty()),
    {
        Self::new()
    }
}

/// Proximity at or beyond which the scheme without a helper stands on the
/// nearest ghost platform: one metre.
pub const GHOST_STANDING_PROXIMITY: i64 = 1000;

/// How crouch input is turned into falling through passable platforms.
#[derive(Clone, Copy, PartialEq, Eq, Structural, Debug)]
pub enum FallingThroughControlScheme {
    /// No helper: crouching over the nearest ghost platform is refused, and
    /// otherwise the character stands on it.
    WithoutHelper,
    /// One platform per press of crouch.
    SingleFall,
    /// Every platform below, for as long as crouch is held.
    KeepFalling,
}

/// What a frame of a control scheme produces: whether the character is
/// still crouching, the helper's new state, and the selected ground.
pub open spec fn scheme_outcome(
    scheme: FallingThroughControlScheme,
    crouch: bool,
    crouch_just_pressed: bool,
    helper: (FallState, Seq<u64>),
    output: Option<TnuaProximitySensorOutput>,
    ghosts: Seq<TnuaProximitySensorOutput>,
    min_proximity: i64,
) -> (bool, (FallState, Seq<u64>), Option<TnuaProximitySensorOutput>) {
    match scheme {
        FallingThroughControlScheme::WithoutHelper => {
            if ghosts.len() > 0 && GHOST_STANDING_PROXIMITY <= ghosts[0].proximity {
                if crouch {
                    (false, helper, output)
                } else {
                    (false, helper, Some(ghosts[0]))
                }
            } else {
                (crouch, helper, output)
            }
        },
        FallingThroughControlScheme::SingleFall => {
            if crouch {
                let next = stepped(helper, ghosts, min_proximity, crouch_just_pressed);
                (
                    next.0 != FallState::FallingThroughOne,
                    next,
                    stand_on(output, ghosts, min_proximity, next.1),
                )
            } else {
                let next = released(helper, ghosts, min_proximity);
                (false, next, stand_on(output, ghosts, min_proximity, next.1))
            }
        },
        FallingThroughControlScheme::KeepFalling => {
            if crouch {
                let next = falling_on(ghosts, min_proximity);
                (next.0 != FallState::FallingThroughContinuous, next, output)
            } else {
                let next = released(helper, ghosts, min_proximity);
                (false, next, stand_on(output, ghosts, min_proximity, next.1))
            }
        },
    }
}

impl FallingThroughControlScheme {
    /// Runs one frame of this scheme: updates the helper, may replace the
    /// proximity sensor's selected ground with a ghost platform, and returns
    /// whether the character should still be treated as crouching.
    pub fn perform_and_check_if_still_crouching(
        &self,
        crouch: bool,
        crouch_just_pressed: bool,
        fall_through_helper: &mut TnuaSimpleFallThroughPlatformsHelper,
        proximity_sensor: &mut TnuaProximitySensor,
        ghost_sensor: &TnuaGhostSensor,
        min_proximity: i64,
    ) -> (r: bool)
        ensures
            (r, final(fall_through_helper)@, final(proximity_sensor).output) == scheme_outcome(
                *self,
                crouch,
                crouch_just_pressed,
                old(fall_through_helper)@,
                old(proximity_sensor).output,
                ghost_sensor.hits(),
                min_proximity,
            ),
            *final(proximity_sensor) == old(proximity_sensor).with_output(
                final(proximity_sensor).output,
            ),
    {
        match self {
            FallingThroughControlScheme::WithoutHelper => {
                if ghost_sensor.0.len() > 0 {
                    let ghost_platform = ghost_sensor.0[0];
                    if GHOST_STANDING_PROXIMITY <= ghost_platform.proximity {
                        if crouch {
                            return false;
                        } else {
                            proximity_sensor.output = Some(ghost_platform);
                        }
                    }
                }
                crouch
            },
            FallingThroughControlScheme::SingleFall => {
                if crouch {
                    !fall_through_helper.try_falling_one_step_at_a_time(
                        proximity_sensor,
                        ghost_sensor,
                        min_proximity,
                        crouch_just_pressed,
                    )
                } else {
                    fall_through_helper.dont_fall(proximity_sensor, ghost_sensor, min_proximity);
                    false
                }
            },
            FallingThroughControlScheme::KeepFalling => {
                if crouch {
                    !fall_through_helper.try_falling(ghost_sensor, min_proximity)
                } else {
                    fall_through_helper.dont_fall(proximity_sensor, ghost_sensor, min_proximity);
                    false
                }
            },
        }
    }
}

proof fn lemma_kept_within(passing: Seq<u64>, ghosts: Seq<TnuaProximitySensorOutput>, min_proximity: i64)
    ensures
        forall|e: u64| kept(passing, ghosts, min_proximity).contains(e) ==> passing.contains(e),
    decreases passing.len(),
{
    if passing.len() > 0 {
        let rest = passing.drop_last();
        lemma_kept_within(rest, ghosts, min_proximity);
        assert forall|e: u64| kept(passing, ghosts, min_proximity).contains(e) implies passing.contains(e) by {
            if rest.contains(e) {
                let i = choose|i: int| 0 <= i < rest.len() && rest[i] == e;
                assert(passing[i] == e);
            } else {
                assert(passing[passing.len() - 1] == e);
            }
        }
    }
}

proof fn lemma_free_hit_found(
    ghosts: Seq<TnuaProximitySensorOutput>,
    min_proximity: i64,
    passing: Seq<u64>,
    i: int,
)
    requires
        0 <= i < ghosts.len(),
        eligible(ghosts[i], min_proximity),
        !passing.contains(ghosts[i].entity),
    ensures
        first_free(ghosts, min_proximity, passing) is Some,
    decreases ghosts.len(),
{
    if i > 0 && !(eligible(ghosts[0], min_proximity) && !passing.contains(ghosts[0].entity)) {
        assert(ghosts.drop_first()[i - 1] == ghosts[i]);
        lemma_free_hit_found(ghosts.drop_first(), min_proximity, passing, i - 1);
    }
}

proof fn lemma_eligible_entities_nonempty(ghosts: Seq<TnuaProximitySensorOutput>, min_proximity: i64, i: int)
    requires
        0 <= i < ghosts.len(),
        eligible(ghosts[i], min_proximity),
    ensures
        eligible_entities(ghosts, min_proximity).len() > 0,
    decreases ghosts.len(),
{
    if i < ghosts.len() - 1 && !eligible(ghosts.last(), min_proximity) {
        assert(ghosts.drop_last()[i] == ghosts[i]);
        lemma_eligible_entities_nonempty(ghosts.drop_last(), min_proximity, i);
    }
}

/// With one platform per press, a press of crouch from a fresh helper over a
/// platform that can be passed starts falling through exactly the nearest
/// such platform, and the character is reported as no longer crouching.
pub proof fn lemma_single_fall_press_starts_one_step(
    output: Option<TnuaProximitySensorOutput>,
    ghosts: Seq<TnuaProximitySensorOutput>,
    min_proximity: i64,
    i: int,
)
    requires
        0 <= i < ghosts.len(),
        eligible(ghosts[i], min_proximity),
    ensures
        ({
            let (still_crouching, next, _) = scheme_outcome(
                FallingThroughControlScheme::SingleFall,
                true,
                true,
                (FallState::Idle, Seq::empty()),
                output,
                ghosts,
                min_proximity,
            );
            &&& !still_crouching
            &&& next.0 == FallState::FallingThroughOne
            &&& next.1 == seq![first_free(ghosts, min_proximity, Seq::empty())->0.entity]
        }),
{
    lemma_free_hit_found(ghosts, min_proximity, Seq::empty(), i);
    assert(kept(Seq::<u64>::empty(), ghosts, min_proximity) == Seq::<u64>::empty());
    assert(Seq::<u64>::empty().push(first_free(ghosts, min_proximity, Seq::empty())->0.entity)
        =~= seq![first_free(ghosts, min_proximity, Seq::empty())->0.entity]);
}

/// With one platform per press, holding crouch without a new press never
/// starts passing another platform: every platform being passed afterwards
/// was already being passed.
pub proof fn lemma_single_fall_hold_adds_no_step(
    helper: (FallState, Seq<u64>),
    output: Option<TnuaProximitySensorOutput>,
    ghosts: Seq<TnuaProximitySensorOutput>,
    min_proximity: i64,
)
    ensures
        ({
            let (_, next, _) = scheme_outcome(
                FallingThroughControlScheme::SingleFall,
                true,
                false,
                helper,
                output,
                ghosts,
                min_proximity,
            );
            &&& next.0 == FallState::FallingThroughOne ==> helper.0 == FallState::FallingThroughOne
            &&& forall|e: u64| next.1.contains(e) ==> helper.1.contains(e)
        }),
{
    lemma_kept_within(helper.1, ghosts, min_proximity);
}

/// With continuous falling, every frame that crouch is held over a platform
/// that can be passed reports the character as no longer crouching.
pub proof fn lemma_keep_falling_while_held(
    just_pressed: bool,
    helper: (FallState, Seq<u64>),
    output: Option<TnuaProximitySensorOutput>,
    ghosts: Seq<TnuaProximitySensorOutput>,
    min_proximity: i64,
    i: int,
)
    requires
        0 <= i < ghosts.len(),
        eligible(ghosts[i], min_proximity),
    ensures
        ({
            let (still_crouching, next, _) = scheme_outcome(
                FallingThroughControlScheme::KeepFalling,
                true,
                just_pressed,
                helper,
                output,
                ghosts,
                min_proximity,
            );
            !still_crouching && next.0 == FallState::FallingThroughContinuous
        }),
{
    lemma_eligible_entities_nonempty(ghosts, min_proximity, i);
}

/// With either helper-driven scheme, releasing crouch reports the character
/// as not crouching and returns the helper to idle.
pub proof fn lemma_release_returns_to_idle(
    scheme: FallingThroughControlScheme,
    just_pressed: bool,
    helper: (FallState, Seq<u64>),
    output: Option<TnuaProximitySensorOutput>,
    ghosts: Seq<TnuaProximitySensorOutput>,
    min_proximity: i64,
)
    requires
        scheme != FallingThroughControlScheme::WithoutHelper,
    ensures
        ({
            let (still_crouching, next, _) = scheme_outcome(
                scheme,
                false,
                just_pressed,
                helper,
                output,
                ghosts,
                min_proximity,
            );
            !still_crouching && next.0 == FallState::Idle
        }),
{
}

} // verus!
