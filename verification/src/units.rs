//! The fixed-point units of the simulation, and the speed constants.
//!
//! World lengths are measured in subunits, with `SUBUNITS_PER_PIXEL`
//! subunits to one pixel, and time is measured in milliseconds. The scale is
//! chosen so that every speed of the game is a whole number of subunits per
//! millisecond:
//!
//! - the player walks at 400 px/s = 24 subunits/ms;
//! - the player rises at 850 px/s = 51 subunits/ms while jumping;
//! - the player falls at two thirds of the rise speed (the fall is meant to
//!   read slower than the rise), 850/1.5 px/s = 34 subunits/ms, exactly;
//! - the jump is clamped at 230 px = 13800 subunits of total rise;
//! - a revealed champi rises 0.5 px = 30 subunits each tick and roams
//!   1 px = 60 subunits each tick (deliberately a per-tick step, not a
//!   rate: the champi's motion is frame-rate-dependent);
//! - a champi's rise target sits two 15 px tiles, 30 px = 1800 subunits,
//!   above its spawn point.
//!
//! Contact surface normals are unit vectors; their components are held in
//! thousandths, so a normal pointing straight down has vertical component
//! `-NORMAL_ONE`.

use vstd::prelude::*;

verus! {

/// Subunits in one pixel.
pub const SUBUNITS_PER_PIXEL: i64 = 60;

/// Horizontal walking speed, in subunits per millisecond (400 px/s).
pub const PLAYER_VELOCITY_X: i64 = 24;

/// Upward speed while a jump is in flight, in subunits per millisecond
/// (850 px/s).
pub const PLAYER_VELOCITY_Y: i64 = 51;

/// Downward speed while no jump is in flight, in subunits per millisecond.
/// Exactly two thirds of `PLAYER_VELOCITY_Y`: the intended fall/rise
/// asymmetry (fall speed = rise speed / 1.5).
pub const FALL_VELOCITY_Y: i64 = 34;

/// Total rise at which a jump is clamped and released, in subunits (230 px).
pub const MAX_JUMP_HEIGHT: u64 = 13800;

/// How far a revealed, still-rising champi moves up each tick (0.5 px).
pub const CHAMPI_RISE_STEP: i64 = 30;

/// How far a released champi roams sideways each tick (1 px).
pub const CHAMPI_ROAM_STEP: i64 = 60;

/// Height of a champi's rise target above its spawn point (30 px).
pub const CHAMPI_TARGET_OFFSET: i64 = 1800;

/// The fixed-point scale of contact-normal components: a component of a
/// unit normal lies in `-NORMAL_ONE ..= NORMAL_ONE`.
pub const NORMAL_ONE: i32 = 1000;

/// The fixed-point scale of rotation-quaternion components; the w
/// component of the identity rotation is `ROTATION_ONE`.
pub const ROTATION_ONE: i32 = 1000;

/// Upward distance risen in `dt_ms` milliseconds at the jump speed,
/// before any clamping.
pub open spec fn rise_distance(dt_ms: u32) -> int {
    dt_ms * PLAYER_VELOCITY_Y
}

/// Downward distance fallen in `dt_ms` milliseconds at the fall speed.
pub open spec fn fall_distance(dt_ms: u32) -> int {
    dt_ms * FALL_VELOCITY_Y
}

/// Law: the fall speed's magnitude is the rise speed's magnitude divided by
/// 1.5, so over any tick the distances are in the exact ratio
/// 3 · fall = 2 · rise, independent of the tick's length.
pub proof fn lemma_fall_rise_asymmetry(dt_ms: u32)
    ensures
        3 * FALL_VELOCITY_Y == 2 * PLAYER_VELOCITY_Y,
        3 * fall_distance(dt_ms) == 2 * rise_distance(dt_ms),
{
}

} // verus!
