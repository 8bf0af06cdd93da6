use platformer_core::mario::compute_horizontal_intent;
use platformer_core::mario::select_animation;
use platformer_core::mario::AnimationState;
use platformer_core::mario::CollisionFilter;
use platformer_core::mario::Direction;
use platformer_core::mario::JumpState;
use platformer_core::mario::Mario;

#[test]
fn horizontal_intent_right() {
    assert_eq!(compute_horizontal_intent(false, true, 10), 240);
}

#[test]
fn horizontal_intent_left() {
    assert_eq!(compute_horizontal_intent(true, false, 10), -240);
}

#[test]
fn horizontal_intent_both_or_neither() {
    assert_eq!(compute_horizontal_intent(true, true, 10), 0);
    assert_eq!(compute_horizontal_intent(false, false, 10), 0);
    assert_eq!(compute_horizontal_intent(false, true, 0), 0);
}

#[test]
fn fall_rise_asymmetry_values() {
    let mut m = Mario::new();
    assert!(m.try_start_jump(true, true));
    let rise = m.apply_rise(6);
    assert_eq!(rise, 306);

    let idle = Mario::new();
    let fall = idle.apply_fall(6);
    assert_eq!(fall, -204);

    // fall magnitude == rise magnitude / 1.5, i.e. 3 * fall == 2 * rise
    assert_eq!(3 * (-fall), 2 * rise);
}

#[test]
fn jump_scenario_grounded_press() {
    let mut m = Mario::new();
    let started = m.try_start_jump(true, true);
    assert!(started);
    assert_eq!(m.jump, JumpState::Rising { risen: 0 });
    assert_eq!(m.filter, CollisionFilter::PassThroughCeiling);

    // 850 px/s over 100 ms ticks: 5100 subunits each, clamped at 13800.
    assert_eq!(m.apply_rise(100), 5100);
    assert_eq!(m.jump, JumpState::Rising { risen: 5100 });
    assert_eq!(m.apply_rise(100), 5100);
    assert_eq!(m.jump, JumpState::Rising { risen: 10200 });
    assert_eq!(m.apply_rise(100), 3600);
    assert_eq!(m.jump, JumpState::Idle);
    assert_eq!(m.filter, CollisionFilter::Standard);
}

#[test]
fn jump_needs_ground_and_input() {
    let mut m = Mario::new();
    assert!(!m.try_start_jump(true, false));
    assert_eq!(m.jump, JumpState::Idle);
    assert!(!m.try_start_jump(false, true));
    assert_eq!(m.jump, JumpState::Idle);
    assert_eq!(m.filter, CollisionFilter::Standard);
}

#[test]
fn at_most_one_jump_in_flight() {
    let mut m = Mario::new();
    assert!(m.try_start_jump(true, true));
    let _ = m.apply_rise(10);
    // Pressing jump while a jump is in flight starts nothing and keeps
    // the accumulator, even with the ground reported under the character.
    assert!(!m.try_start_jump(true, false));
    assert!(!m.try_start_jump(true, true));
    assert_eq!(m.jump, JumpState::Rising { risen: 510 });
}

#[test]
fn jump_clamp_many_small_ticks() {
    let mut m = Mario::new();
    assert!(m.try_start_jump(true, true));
    let mut total: i64 = 0;
    let mut ticks: u32 = 0;
    while m.has_active_jump() {
        total += m.apply_rise(7);
        ticks += 1;
        assert!(total <= 13800);
    }
    // 7 ms at 51 subunits/ms = 357 per tick; 38 full ticks reach 13566,
    // the 39th is clamped to the remaining 234.
    assert_eq!(ticks, 39);
    assert_eq!(total, 13800);
    assert_eq!(m.filter, CollisionFilter::Standard);
}

#[test]
fn landing_releases_jump() {
    let mut m = Mario::new();
    assert!(m.try_start_jump(true, true));
    let _ = m.apply_rise(10);
    m.land(false);
    assert_eq!(m.jump, JumpState::Rising { risen: 510 });
    m.land(true);
    assert_eq!(m.jump, JumpState::Idle);
    assert_eq!(m.filter, CollisionFilter::Standard);
}

#[test]
fn direction_follows_horizontal_motion() {
    let mut m = Mario::new();
    m.update_direction(-5);
    assert_eq!(m.facing, Direction::Left);
    m.update_direction(3);
    assert_eq!(m.facing, Direction::Right);
    m.update_direction(-1);
    m.update_direction(0);
    assert_eq!(m.facing, Direction::Left);
}

#[test]
fn huge_tick_clamps_instantly() {
    // A single enormous tick is clamped to the whole jump height at once.
    let mut m = Mario::new();
    assert!(m.try_start_jump(true, true));
    assert_eq!(m.apply_rise(u32::MAX), 13800);
    assert_eq!(m.jump, JumpState::Idle);
    assert_eq!(m.filter, CollisionFilter::Standard);
    assert_eq!(compute_horizontal_intent(false, true, u32::MAX), 4294967295i64 * 24);
}

#[test]
fn animation_selection() {
    assert_eq!(select_animation(0, false), AnimationState::Jumping);
    assert_eq!(select_animation(240, false), AnimationState::Jumping);
    assert_eq!(select_animation(240, true), AnimationState::Walking);
    assert_eq!(select_animation(-240, true), AnimationState::Walking);
    assert_eq!(select_animation(0, true), AnimationState::Standing);
}
