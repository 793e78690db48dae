use tnua_core::fall_through::{
    FallState, FallingThroughControlScheme, TnuaSimpleFallThroughPlatformsHelper,
};
use tnua_core::sensor::{TnuaGhostSensor, TnuaProximitySensor, TnuaProximitySensorOutput, TnuaVelocity};

fn hit(entity: u64, proximity: i64) -> TnuaProximitySensorOutput {
    TnuaProximitySensorOutput { entity, proximity }
}

fn sensor(output: Option<TnuaProximitySensorOutput>) -> TnuaProximitySensor {
    TnuaProximitySensor {
        distance: Some(4000),
        velocity: TnuaVelocity { x: 0, y: -10, z: 0 },
        output,
    }
}

fn solid() -> TnuaProximitySensorOutput {
    hit(99, 4000)
}

#[test]
fn without_helper_crouch_over_ghost_cancels() {
    let mut helper = TnuaSimpleFallThroughPlatformsHelper::new();
    let mut prox = sensor(Some(solid()));
    let ghosts = TnuaGhostSensor(vec![hit(1, 1000)]);
    let r = FallingThroughControlScheme::WithoutHelper
        .perform_and_check_if_still_crouching(true, true, &mut helper, &mut prox, &ghosts, 0);
    assert!(!r);
    assert_eq!(prox, sensor(Some(solid())));
    assert_eq!(helper.state(), FallState::Idle);
}

#[test]
fn without_helper_standing_over_ghost_uses_it_as_ground() {
    let mut helper = TnuaSimpleFallThroughPlatformsHelper::new();
    let mut prox = sensor(Some(solid()));
    let ghosts = TnuaGhostSensor(vec![hit(1, 1000)]);
    let r = FallingThroughControlScheme::WithoutHelper
        .perform_and_check_if_still_crouching(false, false, &mut helper, &mut prox, &ghosts, 0);
    assert!(!r);
    assert_eq!(prox.output, Some(hit(1, 1000)));
    assert_eq!(prox.distance, Some(4000));
}

#[test]
fn without_helper_no_ghost_passes_crouch_through() {
    let mut helper = TnuaSimpleFallThroughPlatformsHelper::new();
    let mut prox = sensor(None);
    let ghosts = TnuaGhostSensor(vec![]);
    let scheme = FallingThroughControlScheme::WithoutHelper;
    assert!(scheme.perform_and_check_if_still_crouching(true, true, &mut helper, &mut prox, &ghosts, 0));
    assert!(!scheme.perform_and_check_if_still_crouching(false, false, &mut helper, &mut prox, &ghosts, 0));
    assert_eq!(prox, sensor(None));
}

#[test]
fn without_helper_near_ghost_is_ignored() {
    let mut helper = TnuaSimpleFallThroughPlatformsHelper::new();
    let mut prox = sensor(None);
    let ghosts = TnuaGhostSensor(vec![hit(1, 999)]);
    let scheme = FallingThroughControlScheme::WithoutHelper;
    assert!(scheme.perform_and_check_if_still_crouching(true, false, &mut helper, &mut prox, &ghosts, 0));
    assert!(!scheme.perform_and_check_if_still_crouching(false, false, &mut helper, &mut prox, &ghosts, 0));
    assert_eq!(prox.output, None);
}

#[test]
fn single_fall_press_then_hold_passes_one_platform() {
    let scheme = FallingThroughControlScheme::SingleFall;
    let mut helper = TnuaSimpleFallThroughPlatformsHelper::new();
    let mut prox = sensor(None);
    let ghosts = TnuaGhostSensor(vec![hit(1, 500), hit(2, 3000)]);

    let r = scheme.perform_and_check_if_still_crouching(true, true, &mut helper, &mut prox, &ghosts, 100);
    assert!(!r);
    assert_eq!(helper.state(), FallState::FallingThroughOne);
    assert_eq!(helper.falling_through(), &vec![1u64]);
    assert_eq!(prox.output, Some(hit(2, 3000)));

    let mut prox = sensor(None);
    let r = scheme.perform_and_check_if_still_crouching(true, false, &mut helper, &mut prox, &ghosts, 100);
    assert!(!r);
    assert_eq!(helper.state(), FallState::FallingThroughOne);
    assert_eq!(helper.falling_through(), &vec![1u64]);
    assert_eq!(prox.output, Some(hit(2, 3000)));

    // The first platform is left behind: the step ends on the second one.
    let mut prox = sensor(None);
    let below = TnuaGhostSensor(vec![hit(2, 2000)]);
    let r = scheme.perform_and_check_if_still_crouching(true, false, &mut helper, &mut prox, &below, 100);
    assert!(r);
    assert_eq!(helper.state(), FallState::Idle);
    assert!(helper.falling_through().is_empty());
    assert_eq!(prox.output, Some(hit(2, 2000)));
}

#[test]
fn single_fall_second_press_passes_next_platform() {
    let scheme = FallingThroughControlScheme::SingleFall;
    let mut helper = TnuaSimpleFallThroughPlatformsHelper::new();
    let mut prox = sensor(None);
    let ghosts = TnuaGhostSensor(vec![hit(1, 500), hit(2, 3000)]);
    scheme.perform_and_check_if_still_crouching(true, true, &mut helper, &mut prox, &ghosts, 100);
    let mut prox = sensor(Some(solid()));
    let r = scheme.perform_and_check_if_still_crouching(true, true, &mut helper, &mut prox, &ghosts, 100);
    assert!(!r);
    assert_eq!(helper.falling_through(), &vec![1u64, 2u64]);
    assert_eq!(prox.output, Some(solid()));
}

#[test]
fn single_fall_press_without_platform_keeps_crouching() {
    let scheme = FallingThroughControlScheme::SingleFall;
    let mut helper = TnuaSimpleFallThroughPlatformsHelper::new();
    let mut prox = sensor(Some(solid()));
    let ghosts = TnuaGhostSensor(vec![]);
    assert!(scheme.perform_and_check_if_still_crouching(true, true, &mut helper, &mut prox, &ghosts, 100));
    assert_eq!(helper.state(), FallState::Idle);
    assert_eq!(prox.output, Some(solid()));
}

#[test]
fn single_fall_held_crouch_without_press_does_not_fall() {
    let scheme = FallingThroughControlScheme::SingleFall;
    let mut helper = TnuaSimpleFallThroughPlatformsHelper::new();
    let mut prox = sensor(None);
    let ghosts = TnuaGhostSensor(vec![hit(1, 500)]);
    assert!(scheme.perform_and_check_if_still_crouching(true, false, &mut helper, &mut prox, &ghosts, 100));
    assert_eq!(helper.state(), FallState::Idle);
    assert!(helper.falling_through().is_empty());
    assert_eq!(prox.output, Some(hit(1, 500)));
}

#[test]
fn ghost_closer_than_minimum_is_not_a_platform() {
    let scheme = FallingThroughControlScheme::SingleFall;
    let mut helper = TnuaSimpleFallThroughPlatformsHelper::new();
    let mut prox = sensor(None);
    let ghosts = TnuaGhostSensor(vec![hit(1, 50)]);
    assert!(scheme.perform_and_check_if_still_crouching(true, true, &mut helper, &mut prox, &ghosts, 100));
    assert_eq!(helper.state(), FallState::Idle);
    assert_eq!(prox.output, None);
}

#[test]
fn keep_falling_while_held_then_release() {
    let scheme = FallingThroughControlScheme::KeepFalling;
    let mut helper = TnuaSimpleFallThroughPlatformsHelper::new();
    let frames = [
        vec![hit(1, 500)],
        vec![hit(1, 200), hit(2, 3000)],
        vec![hit(2, 1500)],
        vec![hit(2, 300), hit(3, 2500)],
    ];
    for (i, frame) in frames.iter().enumerate() {
        let mut prox = sensor(Some(solid()));
        let ghosts = TnuaGhostSensor(frame.clone());
        let r = scheme.perform_and_check_if_still_crouching(true, i == 0, &mut helper, &mut prox, &ghosts, 100);
        assert!(!r);
        assert_eq!(helper.state(), FallState::FallingThroughContinuous);
        assert_eq!(prox.output, Some(solid()));
    }
    assert_eq!(helper.falling_through(), &vec![2u64, 3u64]);

    let mut prox = sensor(Some(solid()));
    let ghosts = TnuaGhostSensor(vec![hit(3, 1800)]);
    let r = scheme.perform_and_check_if_still_crouching(false, false, &mut helper, &mut prox, &ghosts, 100);
    assert!(!r);
    assert_eq!(helper.state(), FallState::Idle);
    // Platform 3 was being passed when crouch was released, so it is finished.
    assert_eq!(helper.falling_through(), &vec![3u64]);
    assert_eq!(prox.output, Some(solid()));
}

#[test]
fn keep_falling_without_platform_keeps_crouching() {
    let scheme = FallingThroughControlScheme::KeepFalling;
    let mut helper = TnuaSimpleFallThroughPlatformsHelper::new();
    let mut prox = sensor(None);
    let ghosts = TnuaGhostSensor(vec![hit(1, 10)]);
    assert!(scheme.perform_and_check_if_still_crouching(true, true, &mut helper, &mut prox, &ghosts, 100));
    assert_eq!(helper.state(), FallState::Idle);
}

#[test]
fn release_stands_on_platform_not_being_passed() {
    let mut helper = TnuaSimpleFallThroughPlatformsHelper::default();
    assert_eq!(helper.state(), FallState::Idle);
    let mut prox = sensor(None);
    let ghosts = TnuaGhostSensor(vec![hit(1, 500), hit(2, 3000)]);
    assert!(helper.try_falling_one_step_at_a_time(&mut prox, &ghosts, 100, true));
    let mut prox = sensor(None);
    helper.dont_fall(&mut prox, &ghosts, 100);
    assert_eq!(helper.state(), FallState::Idle);
    assert_eq!(helper.falling_through(), &vec![1u64]);
    assert_eq!(prox.output, Some(hit(2, 3000)));

    // Once platform 1 is out of sight it is forgotten and can be stood on again.
    let mut prox = sensor(None);
    helper.dont_fall(&mut prox, &TnuaGhostSensor(vec![hit(2, 2500)]), 100);
    assert!(helper.falling_through().is_empty());
    let mut prox2 = sensor(None);
    helper.dont_fall(&mut prox2, &TnuaGhostSensor(vec![hit(1, 700)]), 100);
    assert_eq!(prox2.output, Some(hit(1, 700)));
    assert_eq!(prox.output, Some(hit(2, 2500)));
}

#[test]
fn try_falling_passes_every_eligible_platform() {
    let mut helper = TnuaSimpleFallThroughPlatformsHelper::new();
    let ghosts = TnuaGhostSensor(vec![hit(4, 50), hit(5, 400), hit(6, 900)]);
    assert!(helper.try_falling(&ghosts, 100));
    assert_eq!(helper.falling_through(), &vec![5u64, 6u64]);
    assert!(!helper.try_falling(&TnuaGhostSensor(vec![]), 100));
    assert_eq!(helper.state(), FallState::Idle);
}
