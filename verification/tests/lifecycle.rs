use platformer_core::champi::BodyMode;
use platformer_core::champi::Champi;
use platformer_core::contact::Contact;
use platformer_core::contact::ToiStatus;
use platformer_core::mario::AnimationState;
use platformer_core::mario::CollisionFilter;
use platformer_core::mario::JumpState;
use platformer_core::world::Input;
use platformer_core::world::PhysicsOutput;
use platformer_core::world::World;

const NO_INPUT: Input = Input { left: false, right: false, up: false };

#[test]
fn rise_completes_at_target() {
    // Scenario: champi at Y = 100 px (6000 subunits), target 130 px
    // (7800); it rises 0.5 px (30 subunits) per tick, so 60 ticks reach
    // the target exactly.
    let mut c = Champi::new(9, 1, 0, 6000);
    assert_eq!(c.target_y, 7800);
    c.visible = true;
    c.upcoming = true;
    for tick in 0..59i64 {
        c.apply_translation();
        assert_eq!(c.y, 6030 + 30 * tick);
        assert!(c.upcoming);
        assert_eq!(c.body, BodyMode::Fixed);
        assert!(c.presented);
    }
    c.apply_translation();
    assert_eq!(c.y, 7800);
    assert!(!c.upcoming);
    assert_eq!(c.body, BodyMode::Dynamic);
}

#[test]
fn released_champi_roams_upright() {
    let mut c = Champi::new(9, 1, 120, 6000);
    c.visible = true;
    c.upcoming = false;
    c.body = BodyMode::Dynamic;
    c.rot_w = 37;
    c.apply_translation();
    assert_eq!(c.x, 180);
    assert_eq!(c.y, 6000);
    assert_eq!(c.rot_w, 0);
    assert_eq!(c.body, BodyMode::Dynamic);
    assert!(c.presented);
}

#[test]
fn hidden_champi_stays_hidden() {
    let mut c = Champi::new(9, 1, 120, 6000);
    c.presented = true;
    c.apply_translation();
    assert!(!c.presented);
    assert_eq!(c.x, 120);
    assert_eq!(c.y, 6000);
    assert!(!c.visible);
    assert!(!c.upcoming);
}

#[test]
fn tick_on_empty_world_is_safe() {
    // No blocks and no champis present is not an error: the scans are
    // no-ops and the character simply falls.
    let mut w = World::new();
    let phys = PhysicsOutput { grounded: false, desired_x: 0, contacts: vec![] };
    let out = w.tick(NO_INPUT, 10, &phys);
    assert_eq!(out.dx, 0);
    assert_eq!(out.dy, -340);
    assert_eq!(out.animation, AnimationState::Jumping);
    assert!(!w.mario.grown);
}

#[test]
fn spawn_block_refuses_duplicate_id() {
    let mut w = World::new();
    assert!(w.spawn_block(7, 1));
    assert!(!w.spawn_block(8, 1));
    assert!(w.spawn_block(8, 2));
}

#[test]
fn world_tick_jump_and_reveal() {
    let mut w = World::new();
    assert!(w.spawn_block(7, 1));
    w.spawn_champi(9, 1, 0, 6000);

    // Tick 1: grounded, jump pressed, moving right; no contacts yet.
    let phys = PhysicsOutput { grounded: true, desired_x: 0, contacts: vec![] };
    let out = w.tick(Input { left: false, right: true, up: true }, 10, &phys);
    assert_eq!(out.dx, 240);
    assert_eq!(out.dy, 510);
    assert_eq!(w.mario.jump, JumpState::Rising { risen: 510 });
    assert_eq!(w.mario.filter, CollisionFilter::PassThroughCeiling);
    // The engine echoed no previous displacement, so the character still
    // presents as standing.
    assert_eq!(out.animation, AnimationState::Standing);

    // Tick 2: airborne now, the head strikes the block from below.
    let phys = PhysicsOutput {
        grounded: false,
        desired_x: 240,
        contacts: vec![Contact { other: 7, normal_x: 0, normal_y: -1000, toi: ToiStatus::Converged }],
    };
    let out = w.tick(Input { left: false, right: true, up: true }, 10, &phys);
    assert_eq!(out.dy, 510);
    assert_eq!(out.animation, AnimationState::Jumping);
    assert!(w.blocks[0].opened);
    assert!(w.champis[0].visible);
    assert!(w.champis[0].upcoming);
    assert_eq!(w.champis[0].y, 6030);
    assert_eq!(w.champis[0].body, BodyMode::Fixed);

    // Ticks until the jump clamps: 510 per tick toward 13800.
    let mut dy_total: i64 = out.dy + 510;
    while w.mario.has_active_jump() {
        let phys = PhysicsOutput { grounded: false, desired_x: 0, contacts: vec![] };
        let out = w.tick(NO_INPUT, 10, &phys);
        dy_total += out.dy;
    }
    assert_eq!(dy_total, 13800);
    assert_eq!(w.mario.filter, CollisionFilter::Standard);

    // With the jump released the character falls at 34 subunits/ms.
    let phys = PhysicsOutput { grounded: false, desired_x: 0, contacts: vec![] };
    let out = w.tick(NO_INPUT, 10, &phys);
    assert_eq!(out.dy, -340);
}

#[test]
fn world_tick_pickup_grows_player() {
    let mut w = World::new();
    assert!(w.spawn_block(7, 1));
    w.spawn_champi(9, 1, 0, 6000);

    // Reveal the champi, let it finish its rise.
    let phys = PhysicsOutput {
        grounded: true,
        desired_x: 0,
        contacts: vec![Contact { other: 7, normal_x: 0, normal_y: -1000, toi: ToiStatus::Converged }],
    };
    let _ = w.tick(NO_INPUT, 10, &phys);
    for _ in 0..59 {
        let phys = PhysicsOutput { grounded: true, desired_x: 0, contacts: vec![] };
        let _ = w.tick(NO_INPUT, 10, &phys);
    }
    assert!(!w.champis[0].upcoming);
    assert_eq!(w.champis[0].body, BodyMode::Dynamic);
    assert!(!w.mario.grown);

    // The player touches the released champi.
    let phys = PhysicsOutput {
        grounded: true,
        desired_x: 0,
        contacts: vec![Contact { other: 9, normal_x: 1000, normal_y: 0, toi: ToiStatus::Converged }],
    };
    let _ = w.tick(NO_INPUT, 10, &phys);
    assert!(!w.champis[0].visible);
    assert!(!w.champis[0].has_collider);
    assert!(w.mario.grown);

    // Touching again changes nothing; the grown flag is permanent.
    let x_before = w.champis[0].x;
    let phys = PhysicsOutput {
        grounded: true,
        desired_x: 0,
        contacts: vec![Contact { other: 9, normal_x: 1000, normal_y: 0, toi: ToiStatus::Converged }],
    };
    let _ = w.tick(NO_INPUT, 10, &phys);
    assert!(!w.champis[0].visible);
    assert!(w.mario.grown);
    assert_eq!(w.champis[0].x, x_before);
}
