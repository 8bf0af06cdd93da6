//! The character controller: horizontal movement intent, the jump/rise/fall
//! state machine, collision-filter toggling, facing direction and the
//! animation selector.
//!
//! The controller is driven once per simulation tick. It computes a desired
//! displacement from the polled input and the previous tick's engine
//! feedback; the physics engine (outside this library) resolves that
//! displacement and reports back what was requested and whether the
//! character ended up grounded.
//!
//! A jump is a linear rise clipped at a hard ceiling, not a physically
//! integrated arc: while a jump is in flight the character rises at
//! `PLAYER_VELOCITY_Y` until the accumulated rise reaches
//! `MAX_JUMP_HEIGHT`, where the last step is clamped and the jump state is
//! released. While a jump is in flight the collision filter passes through
//! the ceiling layer, so the character can jump up through platforms; the
//! filter reverts exactly when the jump is released or the character lands.

use vstd::prelude::*;

use crate::units::FALL_VELOCITY_Y;
use crate::units::MAX_JUMP_HEIGHT;
use crate::units::PLAYER_VELOCITY_X;
use crate::units::PLAYER_VELOCITY_Y;
use crate::units::fall_distance;
use crate::units::rise_distance;

verus! {

/// Which way the character faces; drives sprite mirroring.
#[derive(Clone, Copy, PartialEq, Eq, Structural, Debug)]
pub enum Direction {
    Right,
    Left,
}

/// The collision filter the character's physics body queries with.
#[derive(Clone, Copy, PartialEq, Eq, Structural, Debug)]
pub enum CollisionFilter {
    /// Collide with everything the character normally collides with.
    Standard,
    /// Additionally pass through the ceiling layer; active while a jump is
    /// in flight, so the character can rise up through platforms.
    PassThroughCeiling,
}

/// The jump state of the character: at most one jump is in flight, and
/// while one is, `risen` accumulates the distance risen so far (subunits).
#[derive(Clone, Copy, PartialEq, Eq, Structural, Debug)]
pub enum JumpState {
    Idle,
    Rising { risen: u64 },
}

/// The animation the presentation layer should show, derived each tick
/// from the controller's outputs and never stored.
#[derive(Clone, Copy, PartialEq, Eq, Structural, Debug)]
pub enum AnimationState {
    Standing,
    Walking,
    Jumping,
}

/// The player character's controller state. The character's position is
/// owned by the physics body outside this library; the controller holds
/// only what the per-tick decisions read and write.
#[derive(Clone, Copy, PartialEq, Eq, Structural, Debug)]
pub struct Mario {
    /// Facing direction, kept from the last tick with horizontal intent.
    pub facing: Direction,
    /// The jump in flight, if any.
    pub jump: JumpState,
    /// Collision filter; passes through the ceiling layer exactly while a
    /// jump is in flight.
    pub filter: CollisionFilter,
    /// Set once and for all when a champi power-up is collected.
    pub grown: bool,
}

impl Mario {
    /// Well-formedness: the rise accumulator exists only while a jump is in
    /// flight and stays strictly under the clamp (the step that reaches the
    /// clamp releases the jump), and the filter passes through the ceiling
    /// layer exactly while a jump is in flight.
    pub open spec fn wf(self) -> bool {
        &&& (self.jump is Rising ==> self.jump->risen < MAX_JUMP_HEIGHT)
        &&& ((self.jump is Rising) <==> (self.filter is PassThroughCeiling))
    }

    /// A freshly spawned character: facing right, no jump in flight, the
    /// standard collision filter, not grown.
    pub fn new() -> (m: Mario)
        ensures
            m.wf(),
            m.facing is Right,
            m.jump is Idle,
            m.filter is Standard,
            !m.grown,
    {
        Mario { facing: Direction::Right, jump: JumpState::Idle, filter: CollisionFilter::Standard, grown: false }
    }

    /// Whether a jump is currently in flight.
    pub fn has_active_jump(&self) -> (b: bool)
        ensures
            b == (self.jump is Rising),
    {
        match self.jump {
            JumpState::Rising { .. } => true,
            JumpState::Idle => false,
        }
    }

    /// Notices a landing: touching ground releases any jump still in
    /// flight and reverts the collision filter.
    pub fn land(&mut self, grounded: bool)
        ensures
            *final(self) == mario_landed(*old(self), grounded),
            old(self).wf() ==> final(self).wf(),
    {
        if grounded {
            match self.jump {
                JumpState::Rising { .. } => {
                    self.jump = JumpState::Idle;
                    self.filter = CollisionFilter::Standard;
                },
                JumpState::Idle => {},
            }
        }
    }

    /// Starts a jump when the jump input is pressed, the character is
    /// grounded, and no jump is already in flight: the rise accumulator
    /// starts at 0 and the collision filter switches to pass through the
    /// ceiling layer. Returns whether a jump was started; at most one jump
    /// is ever in flight.
    pub fn try_start_jump(&mut self, jump_pressed: bool, grounded: bool) -> (started: bool)
        ensures
            started == jump_start_allowed(*old(self), jump_pressed, grounded),
            *final(self) == mario_jump_started(*old(self), jump_pressed, grounded),
            old(self).wf() ==> final(self).wf(),
    {
        let allowed = jump_pressed && grounded && !self.has_active_jump();
        if allowed {
            self.jump = JumpState::Rising { risen: 0 };
            self.filter = CollisionFilter::PassThroughCeiling;
        }
        allowed
    }

    /// One tick of rise while a jump is in flight: the character moves up
    /// `dt_ms · PLAYER_VELOCITY_Y`, clamped so that the total rise never
    /// passes `MAX_JUMP_HEIGHT`; the step that reaches the clamp releases
    /// the jump and reverts the collision filter. Returns the upward
    /// displacement of this tick, in subunits.
    pub fn apply_rise(&mut self, dt_ms: u32) -> (movement: i64)
        requires
            old(self).wf(),
            old(self).jump is Rising,
        ensures
            final(self).wf(),
            movement == rise_step_movement(old(self).jump->risen, dt_ms),
            *final(self) == mario_risen(*old(self), dt_ms),
            0 <= movement,
            old(self).jump->risen + movement <= MAX_JUMP_HEIGHT,
    {
        let acc: u64 = match self.jump {
            JumpState::Rising { risen } => risen,
            JumpState::Idle => 0,
        };
        let mov: u64 = (dt_ms as u64) * (PLAYER_VELOCITY_Y as u64);
        if acc + mov >= MAX_JUMP_HEIGHT {
            self.jump = JumpState::Idle;
            self.filter = CollisionFilter::Standard;
            (MAX_JUMP_HEIGHT - acc) as i64
        } else {
            self.jump = JumpState::Rising { risen: acc + mov };
            mov as i64
        }
    }

    /// One tick of fall while no jump is in flight: a constant downward
    /// velocity of `FALL_VELOCITY_Y`, independent of how long the fall has
    /// lasted. Returns the (non-positive) vertical displacement of this
    /// tick, in subunits.
    pub fn apply_fall(&self, dt_ms: u32) -> (movement: i64)
        requires
            self.jump is Idle,
        ensures
            movement == -fall_distance(dt_ms),
            movement <= 0,
    {
        -((dt_ms as i64) * FALL_VELOCITY_Y)
    }

    /// Updates the facing direction from the horizontal displacement the
    /// engine echoed back: right when positive, left when negative, kept
    /// when zero.
    pub fn update_direction(&mut self, desired_x: i64)
        ensures
            final(self).facing == facing_after(old(self).facing, desired_x),
            final(self).jump == old(self).jump,
            final(self).filter == old(self).filter,
            final(self).grown == old(self).grown,
            old(self).wf() ==> final(self).wf(),
    {
        if desired_x > 0 {
            self.facing = Direction::Right;
        } else if desired_x < 0 {
            self.facing = Direction::Left;
        }
    }
}

/// The character after noticing a landing.
pub open spec fn mario_landed(m: Mario, grounded: bool) -> Mario {
    if grounded && m.jump is Rising {
        Mario { jump: JumpState::Idle, filter: CollisionFilter::Standard, ..m }
    } else {
        m
    }
}

/// Whether a jump may start: jump input pressed, grounded, and no jump
/// already in flight.
pub open spec fn jump_start_allowed(m: Mario, jump_pressed: bool, grounded: bool) -> bool {
    jump_pressed && grounded && !(m.jump is Rising)
}

/// The character after a jump attempt.
pub open spec fn mario_jump_started(m: Mario, jump_pressed: bool, grounded: bool) -> Mario {
    if jump_start_allowed(m, jump_pressed, grounded) {
        Mario { jump: (JumpState::Rising { risen: 0 }), filter: CollisionFilter::PassThroughCeiling, ..m }
    } else {
        m
    }
}

/// The upward movement of one rise tick, from the accumulated rise so far:
/// `dt_ms · PLAYER_VELOCITY_Y`, clamped to the distance left under
/// `MAX_JUMP_HEIGHT`.
pub open spec fn rise_step_movement(risen: u64, dt_ms: u32) -> int {
    if risen + rise_distance(dt_ms) >= MAX_JUMP_HEIGHT {
        MAX_JUMP_HEIGHT - risen
    } else {
        rise_distance(dt_ms)
    }
}

/// Whether one rise tick reaches the clamp and releases the jump.
pub open spec fn rise_step_completes(risen: u64, dt_ms: u32) -> bool {
    risen + rise_distance(dt_ms) >= MAX_JUMP_HEIGHT
}

/// The character after one rise tick.
pub open spec fn mario_risen(m: Mario, dt_ms: u32) -> Mario
    recommends
        m.jump is Rising,
{
    if rise_step_completes(m.jump->risen, dt_ms) {
        Mario { jump: JumpState::Idle, filter: CollisionFilter::Standard, ..m }
    } else {
        Mario { jump: (JumpState::Rising { risen: (m.jump->risen + rise_distance(dt_ms)) as u64 }), ..m }
    }
}

/// The facing direction after one tick, from the echoed horizontal
/// displacement.
pub open spec fn facing_after(facing: Direction, desired_x: i64) -> Direction {
    if desired_x > 0 {
        Direction::Right
    } else if desired_x < 0 {
        Direction::Left
    } else {
        facing
    }
}

/// The horizontal displacement intended for one tick: `±PLAYER_VELOCITY_X
/// · dt_ms` when exactly one of the left/right inputs is pressed, 0 when
/// neither or both are. It overwrites any earlier horizontal intent; it is
/// not additive across ticks.
pub open spec fn horizontal_intent(left: bool, right: bool, dt_ms: u32) -> int {
    if right && !left {
        dt_ms * PLAYER_VELOCITY_X
    } else if left && !right {
        -(dt_ms * PLAYER_VELOCITY_X)
    } else {
        0
    }
}

/// Computes the horizontal displacement intent of one tick from the polled
/// left/right inputs, in subunits.
pub fn compute_horizontal_intent(left: bool, right: bool, dt_ms: u32) -> (dx: i64)
    ensures
        dx == horizontal_intent(left, right, dt_ms),
{
    let step: i64 = (dt_ms as i64) * PLAYER_VELOCITY_X;
    if right && !left {
        step
    } else if left && !right {
        -step
    } else {
        0
    }
}

/// The animation to show, derived from the engine's feedback: jumping
/// whenever airborne, walking when moving on the ground, standing
/// otherwise.
pub open spec fn animation_for(desired_x: i64, grounded: bool) -> AnimationState {
    if !grounded {
        AnimationState::Jumping
    } else if desired_x != 0 {
        AnimationState::Walking
    } else {
        AnimationState::Standing
    }
}

/// Selects the animation for this tick from the engine's feedback.
pub fn select_animation(desired_x: i64, grounded: bool) -> (a: AnimationState)
    ensures
        a == animation_for(desired_x, grounded),
{
    if !grounded {
        AnimationState::Jumping
    } else if desired_x != 0 {
        AnimationState::Walking
    } else {
        AnimationState::Standing
    }
}

/// The outcome of feeding a jump, started with an empty accumulator, one
/// rise tick per element of `dt_ms_seq`, in order: whether the jump is
/// still in flight afterwards, and the cumulative rise. Once the jump is
/// released no further element adds rise.
pub open spec fn rise_run(dt_ms_seq: Seq<u32>) -> (bool, int)
    decreases dt_ms_seq.len(),
{
    if dt_ms_seq.len() == 0 {
        (true, 0)
    } else {
        let prev = rise_run(dt_ms_seq.drop_last());
        if !prev.0 {
            prev
        } else if prev.1 + rise_distance(dt_ms_seq.last()) >= MAX_JUMP_HEIGHT {
            (false, MAX_JUMP_HEIGHT as int)
        } else {
            (true, prev.1 + rise_distance(dt_ms_seq.last()))
        }
    }
}

/// Law: over every sequence of tick lengths, the cumulative rise of a jump
/// never passes `MAX_JUMP_HEIGHT`, it never shrinks, and the jump state is
/// cleared exactly when the cumulative rise first reaches that bound.
pub proof fn lemma_jump_clamp(dt_ms_seq: Seq<u32>)
    ensures
        0 <= rise_run(dt_ms_seq).1 <= MAX_JUMP_HEIGHT,
        rise_run(dt_ms_seq).0 <==> rise_run(dt_ms_seq).1 < MAX_JUMP_HEIGHT,
        dt_ms_seq.len() > 0 ==> rise_run(dt_ms_seq.drop_last()).1 <= rise_run(dt_ms_seq).1,
    decreases dt_ms_seq.len(),
{
    if dt_ms_seq.len() > 0 {
        lemma_jump_clamp(dt_ms_seq.drop_last());
    }
}

/// Law: the sequence model above advances exactly as `apply_rise` does.
/// While the jump of the model is still in flight, one more tick adds
/// `rise_step_movement` of the rise accumulated so far and stays in flight
/// unless that step completes the jump; once the jump is released, further
/// ticks change nothing.
pub proof fn lemma_rise_run_step(dt_ms_seq: Seq<u32>, dt_ms: u32)
    ensures
        rise_run(dt_ms_seq).0 ==> rise_run(dt_ms_seq.push(dt_ms)).1 == rise_run(dt_ms_seq).1
            + rise_step_movement(rise_run(dt_ms_seq).1 as u64, dt_ms),
        rise_run(dt_ms_seq.push(dt_ms)).0 == (rise_run(dt_ms_seq).0 && !rise_step_completes(
            rise_run(dt_ms_seq).1 as u64,
            dt_ms,
        )),
        !rise_run(dt_ms_seq).0 ==> rise_run(dt_ms_seq.push(dt_ms)) == rise_run(dt_ms_seq),
{
    lemma_jump_clamp(dt_ms_seq);
    assert(dt_ms_seq.push(dt_ms).drop_last() =~= dt_ms_seq);
    assert(dt_ms_seq.push(dt_ms).last() == dt_ms);
}

} // verus!
