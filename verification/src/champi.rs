//! The "champi" power-up entity and its lifecycle.
//!
//! A champi is created hidden, with a fixed physics body, paired with one
//! block by a stable integer identifier. When its block is opened it
//! becomes visible and "upcoming": it rises a fixed step each tick until it
//! reaches its target height, where it is released — the upcoming flag
//! clears and the body switches from fixed to dynamic, once and for all.
//! A released champi roams sideways a fixed step each tick, its rotation
//! pinned upright. When the player touches a visible champi it is picked
//! up: it turns invisible, loses its solid collider, and the player is
//! flagged as grown; all three transitions are one-way.
//!
//! The champi's per-tick steps are deliberately per-tick constants, not
//! rates: its motion is frame-rate-dependent, unlike the player's.

use vstd::prelude::*;

use crate::contact::Contact;
use crate::contact::touches;
use crate::mario::Mario;
use crate::units::CHAMPI_RISE_STEP;
use crate::units::CHAMPI_ROAM_STEP;
use crate::units::CHAMPI_TARGET_OFFSET;
use crate::units::ROTATION_ONE;

verus! {

/// The mode of the champi's physics body. A hidden or rising champi is
/// fixed in place (the engine does not simulate it); a released champi is
/// dynamic. The engine cannot mutate a body's mode in place, so the switch
/// is a remove-then-add performed by the caller; here it is a plain field.
#[derive(Clone, Copy, PartialEq, Eq, Structural, Debug)]
pub enum BodyMode {
    Fixed,
    Dynamic,
}

/// One champi power-up.
#[derive(Clone, Copy, PartialEq, Eq, Structural, Debug)]
pub struct Champi {
    /// Stable handle of this champi's entity, matched against contacts.
    pub entity: u64,
    /// Stable identifier pairing this champi with one block. Never an
    /// engine handle: handles are transient and may be reused.
    pub block_id: i32,
    /// Whether the champi is logically in play (revealed, not picked up).
    pub visible: bool,
    /// True while rising out of its opened block, false once released.
    pub upcoming: bool,
    /// Horizontal position, in subunits.
    pub x: i64,
    /// Vertical position, in subunits.
    pub y: i64,
    /// The height at which the rise completes: spawn height plus
    /// `CHAMPI_TARGET_OFFSET`.
    pub target_y: i64,
    /// Physics body mode; switches fixed → dynamic when the rise completes.
    pub body: BodyMode,
    /// Whether the solid collider is still attached; stripped on pickup.
    pub has_collider: bool,
    /// The visibility handed to the renderer, refreshed every tick.
    pub presented: bool,
    /// The w component of the body's rotation quaternion, in thousandths;
    /// a roaming champi has it reset each tick to stay visually upright.
    pub rot_w: i32,
}

/// A champi as created at level load: hidden, not yet rising, fixed in
/// place at its spawn point with its collider attached and its rotation
/// upright, its rise target `CHAMPI_TARGET_OFFSET` above the spawn height.
pub open spec fn initial_champi(entity: u64, block_id: i32, x: i64, y: i64) -> Champi {
    Champi {
        entity,
        block_id,
        visible: false,
        upcoming: false,
        x,
        y,
        target_y: (y + CHAMPI_TARGET_OFFSET) as i64,
        body: BodyMode::Fixed,
        has_collider: true,
        presented: false,
        rot_w: ROTATION_ONE,
    }
}

impl Champi {
    /// Well-formedness: while the champi is still rising out of its block
    /// its body is fixed — it turns dynamic only when the rise completes.
    pub open spec fn wf(self) -> bool {
        self.upcoming ==> self.body is Fixed
    }

    /// A champi as created at level load: hidden, not yet rising, fixed in
    /// place at its spawn point with its collider attached, its rise
    /// target `CHAMPI_TARGET_OFFSET` above the spawn height.
    pub fn new(entity: u64, block_id: i32, x: i64, y: i64) -> (c: Champi)
        requires
            y + CHAMPI_TARGET_OFFSET <= i64::MAX,
        ensures
            c == initial_champi(entity, block_id, x, y),
            c.wf(),
            c.entity == entity,
            c.block_id == block_id,
            !c.visible,
            !c.upcoming,
            c.x == x,
            c.y == y,
            c.target_y == y + CHAMPI_TARGET_OFFSET,
            c.body is Fixed,
            c.has_collider,
            !c.presented,
            c.rot_w == ROTATION_ONE,
    {
        Champi {
            entity,
            block_id,
            visible: false,
            upcoming: false,
            x,
            y,
            target_y: y + CHAMPI_TARGET_OFFSET,
            body: BodyMode::Fixed,
            has_collider: true,
            presented: false,
            rot_w: ROTATION_ONE,
        }
    }

    /// One rise tick of a visible, upcoming champi: up by
    /// `CHAMPI_RISE_STEP`; on reaching the target height the champi is
    /// released — upcoming clears and the body turns dynamic.
    pub fn tick_rise(&mut self)
        requires
            old(self).wf(),
            old(self).visible,
            old(self).upcoming,
            old(self).y + CHAMPI_RISE_STEP <= i64::MAX,
        ensures
            *final(self) == champi_risen(*old(self)),
            final(self).wf(),
    {
        self.y = self.y + CHAMPI_RISE_STEP;
        if self.y >= self.target_y {
            self.upcoming = false;
            self.body = BodyMode::Dynamic;
        }
    }

    /// One roam tick of a visible, released champi: sideways by
    /// `CHAMPI_ROAM_STEP`, with the rotation reset so the freely simulated
    /// body stays visually upright.
    pub fn tick_roam(&mut self)
        requires
            old(self).visible,
            !old(self).upcoming,
            old(self).x + CHAMPI_ROAM_STEP <= i64::MAX,
        ensures
            *final(self) == champi_roamed(*old(self)),
            old(self).wf() ==> final(self).wf(),
    {
        self.x = self.x + CHAMPI_ROAM_STEP;
        self.rot_w = 0;
    }

    /// One presentation-and-motion tick: a visible champi is shown and
    /// either rises or roams; a hidden champi is kept hidden and still.
    pub fn apply_translation(&mut self)
        requires
            old(self).wf(),
            old(self).visible && old(self).upcoming ==> old(self).y + CHAMPI_RISE_STEP <= i64::MAX,
            old(self).visible && !old(self).upcoming ==> old(self).x + CHAMPI_ROAM_STEP <= i64::MAX,
        ensures
            *final(self) == champi_translated(*old(self)),
            final(self).wf(),
    {
        if self.visible {
            self.presented = true;
            if self.upcoming {
                self.tick_rise();
            } else {
                self.tick_roam();
            }
        } else {
            self.presented = false;
        }
    }
}

/// The champi after one rise tick.
pub open spec fn champi_risen(c: Champi) -> Champi {
    if c.y + CHAMPI_RISE_STEP >= c.target_y {
        Champi { y: (c.y + CHAMPI_RISE_STEP) as i64, upcoming: false, body: BodyMode::Dynamic, ..c }
    } else {
        Champi { y: (c.y + CHAMPI_RISE_STEP) as i64, ..c }
    }
}

/// The champi after one roam tick.
pub open spec fn champi_roamed(c: Champi) -> Champi {
    Champi { x: (c.x + CHAMPI_ROAM_STEP) as i64, rot_w: 0, ..c }
}

/// The champi after one presentation-and-motion tick.
pub open spec fn champi_translated(c: Champi) -> Champi {
    if !c.visible {
        Champi { presented: false, ..c }
    } else if c.upcoming {
        Champi { presented: true, ..champi_risen(c) }
    } else {
        Champi { presented: true, ..champi_roamed(c) }
    }
}

/// Whether this tick's contacts pick the champi up: it is touched while
/// visible.
pub open spec fn pickup_condition(c: Champi, contacts: Seq<Contact>) -> bool {
    c.visible && touches(contacts, c.entity)
}

/// The champi after the pickup scan: a touched, visible champi turns
/// invisible and loses its solid collider; every other champi is left as
/// it is.
pub open spec fn champi_picked(c: Champi, contacts: Seq<Contact>) -> Champi {
    if pickup_condition(c, contacts) {
        Champi { visible: false, has_collider: false, ..c }
    } else {
        c
    }
}

/// Whether this tick's contacts pick up any champi of the list.
pub open spec fn any_pickup(champis: Seq<Champi>, contacts: Seq<Contact>) -> bool {
    exists|j: int| 0 <= j < champis.len() && pickup_condition(champis[j], contacts)
}

/// Scans this tick's contacts against the champis: every visible champi
/// the player touched is picked up — it turns invisible and its solid
/// collider is stripped — and the player is flagged as grown if any was.
pub fn resolve_powerup_pickup(contacts: &Vec<Contact>, champis: &mut Vec<Champi>, player: &mut Mario)
    ensures
        final(champis)@.len() == old(champis)@.len(),
        forall|j: int|
            0 <= j < old(champis)@.len() ==> final(champis)@[j] == champi_picked(
                old(champis)@[j],
                contacts@,
            ),
        final(player).grown == (old(player).grown || any_pickup(old(champis)@, contacts@)),
        final(player).facing == old(player).facing,
        final(player).jump == old(player).jump,
        final(player).filter == old(player).filter,
        old(player).wf() ==> final(player).wf(),
{
    let ghost champis0 = champis@;
    let n = champis.len();
    let mut picked_any = false;
    let mut j: usize = 0;
    while j < n
        invariant
            n == champis0.len(),
            champis@.len() == champis0.len(),
            0 <= j <= n,
            forall|i: int| 0 <= i < j ==> champis@[i] == champi_picked(champis0[i], contacts@),
            forall|i: int| j <= i < n ==> champis@[i] == champis0[i],
            picked_any == exists|i: int| 0 <= i < j && pickup_condition(champis0[i], contacts@),
        decreases n - j,
    {
        let c = champis[j];
        if c.visible && crate::contact::any_contact_with(contacts, c.entity) {
            champis[j] = Champi { visible: false, has_collider: false, ..c };
            picked_any = true;
        }
        j = j + 1;
    }
    if picked_any {
        player.grown = true;
    }
}

/// Law (pickup is one-way): a champi the player picks up is invisible and
/// without a collider, and no later contact list changes it again. The
/// player's grown flag is likewise monotone: `resolve_powerup_pickup`
/// ensures it is the old flag or-ed with this tick's pickups.
pub proof fn lemma_pickup_one_way(c: Champi, contacts1: Seq<Contact>, contacts2: Seq<Contact>)
    requires
        pickup_condition(c, contacts1),
    ensures
        !champi_picked(c, contacts1).visible,
        !champi_picked(c, contacts1).has_collider,
        champi_picked(champi_picked(c, contacts1), contacts2) == champi_picked(c, contacts1),
{
}

/// Law (rise completion): a visible, upcoming champi leaves the upcoming
/// state exactly when its translated height reaches the target, and its
/// body is dynamic exactly from that moment — while it is still rising the
/// body stays fixed. Once released, later ticks never touch the body mode
/// again.
pub proof fn lemma_rise_completion(c: Champi, d: Champi)
    requires
        c.wf(),
        c.visible,
        c.upcoming,
        !d.upcoming,
    ensures
        champi_translated(c).upcoming <==> c.y + CHAMPI_RISE_STEP < c.target_y,
        champi_translated(c).body is Dynamic <==> c.y + CHAMPI_RISE_STEP >= c.target_y,
        champi_translated(c).upcoming ==> champi_translated(c).body is Fixed,
        champi_translated(d).body == d.body,
{
}

} // verus!
