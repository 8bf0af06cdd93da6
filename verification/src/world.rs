//! The world state and the per-tick pipeline.
//!
//! The engine loop outside this library polls input, advances the clock,
//! and runs the physics solver; this module makes every decision of one
//! simulation tick, in the fixed order: the controller computes the
//! desired displacement, then the interaction resolver scans the tick's
//! contacts against the blocks and champis, then direction and animation
//! are derived, then the champis move. The caller feeds the returned
//! displacement to the physics engine and hands the engine's feedback —
//! what was requested, whether the character is grounded, and the contact
//! list — back into the next tick.
//!
//! Within one tick every field is written by exactly one stage; the stages
//! run in sequence and later stages read only what earlier stages left.

use vstd::prelude::*;

use crate::block::Block;
use crate::block::block_after;
use crate::block::champi_revealed;
use crate::block::reveal_source_exists;
use crate::block::resolve_block_activation;
use crate::champi::Champi;
use crate::champi::any_pickup;
use crate::champi::champi_picked;
use crate::champi::champi_translated;
use crate::champi::initial_champi;
use crate::champi::resolve_powerup_pickup;
use crate::contact::Contact;
use crate::mario::AnimationState;
use crate::mario::Mario;
use crate::mario::animation_for;
use crate::mario::compute_horizontal_intent;
use crate::mario::facing_after;
use crate::mario::horizontal_intent;
use crate::mario::mario_jump_started;
use crate::mario::mario_landed;
use crate::mario::mario_risen;
use crate::mario::rise_step_movement;
use crate::mario::select_animation;
use crate::units::CHAMPI_RISE_STEP;
use crate::units::CHAMPI_ROAM_STEP;
use crate::units::CHAMPI_TARGET_OFFSET;
use crate::units::fall_distance;

verus! {

/// The digital input of one tick, polled once.
#[derive(Clone, Copy, PartialEq, Eq, Structural, Debug)]
pub struct Input {
    pub left: bool,
    pub right: bool,
    pub up: bool,
}

/// What the physics engine reported back for the previous displacement:
/// whether the character rests on a supporting surface, the horizontal
/// displacement that was requested (echoed for the animation stage), and
/// the tick's contact events.
pub struct PhysicsOutput {
    pub grounded: bool,
    pub desired_x: i64,
    pub contacts: Vec<Contact>,
}

/// What one tick hands back to the engine loop: the desired displacement
/// of the character, in subunits, and the animation to present.
#[derive(Clone, Copy, PartialEq, Eq, Structural, Debug)]
pub struct TickOutput {
    pub dx: i64,
    pub dy: i64,
    pub animation: AnimationState,
}

/// The character after the controller stage of one tick: a landing is
/// noticed, a jump may start, and the jump in flight — if any — rises,
/// else the character falls.
pub open spec fn controller_mario(m: Mario, up: bool, grounded: bool, dt_ms: u32) -> Mario {
    let started = mario_jump_started(mario_landed(m, grounded), up, grounded);
    if started.jump is Rising {
        mario_risen(started, dt_ms)
    } else {
        started
    }
}

/// The vertical displacement the controller stage desires for one tick:
/// the (clamped) rise of the jump in flight, or the constant fall.
pub open spec fn controller_dy(m: Mario, up: bool, grounded: bool, dt_ms: u32) -> int {
    let started = mario_jump_started(mario_landed(m, grounded), up, grounded);
    if started.jump is Rising {
        rise_step_movement(started.jump->risen, dt_ms)
    } else {
        -fall_distance(dt_ms)
    }
}

/// The champi list after the activation scan, pointwise.
pub open spec fn revealed_champis(champis: Seq<Champi>, contacts: Seq<Contact>, blocks: Seq<Block>) -> Seq<
    Champi,
> {
    Seq::new(champis.len(), |j: int| champi_revealed(champis[j], contacts, blocks, champis))
}

/// One champi after both interaction scans of a tick: first the activation
/// scan may reveal it, then the pickup scan may collect it.
pub open spec fn champi_after_interactions(
    c: Champi,
    contacts: Seq<Contact>,
    blocks: Seq<Block>,
    champis: Seq<Champi>,
) -> Champi {
    champi_picked(champi_revealed(c, contacts, blocks, champis), contacts)
}

/// One champi after a whole tick: the interaction scans, then its
/// presentation-and-motion step.
pub open spec fn champi_after_tick(
    c: Champi,
    contacts: Seq<Contact>,
    blocks: Seq<Block>,
    champis: Seq<Champi>,
) -> Champi {
    champi_translated(champi_after_interactions(c, contacts, blocks, champis))
}

/// Whether the tick's contacts pick up any champi, judged after the
/// activation scan (a champi revealed and touched in the same tick is
/// picked up in that tick).
pub open spec fn tick_pickup_happens(
    champis: Seq<Champi>,
    contacts: Seq<Contact>,
    blocks: Seq<Block>,
) -> bool {
    any_pickup(revealed_champis(champis, contacts, blocks), contacts)
}

/// The whole mutable state of the core: the character controller and the
/// interactable entities. Positions of the character are owned by the
/// physics engine outside; positions of the champis are owned here, since
/// the champis' motion is decided here.
pub struct World {
    pub mario: Mario,
    pub blocks: Vec<Block>,
    pub champis: Vec<Champi>,
}

impl World {
    /// Well-formedness of the world:
    /// - the controller state is well-formed;
    /// - every champi is well-formed (rising implies a fixed body);
    /// - block identifiers are unique, so a champi pairs with at most one
    ///   block;
    /// - a champi whose paired block is still unopened is hidden: not
    ///   visible, not rising, its body still fixed.
    pub open spec fn wf(self) -> bool {
        &&& self.mario.wf()
        &&& (forall|j: int| 0 <= j < self.champis@.len() ==> (#[trigger] self.champis@[j]).wf())
        &&& (forall|i1: int, i2: int|
            0 <= i1 < i2 < self.blocks@.len() ==> #[trigger] self.blocks@[i1].id
                != #[trigger] self.blocks@[i2].id)
        &&& (forall|i: int, j: int|
            0 <= i < self.blocks@.len() && 0 <= j < self.champis@.len() && !self.blocks@[i].opened
                && #[trigger] self.blocks@[i].id == #[trigger] self.champis@[j].block_id ==> (
            !self.champis@[j].visible && !self.champis@[j].upcoming && self.champis@[j].body
                is Fixed))
    }

    /// An empty world with a freshly spawned character.
    pub fn new() -> (w: World)
        ensures
            w.wf(),
            w.mario.facing is Right,
            w.mario.jump is Idle,
            w.mario.filter is Standard,
            !w.mario.grown,
            w.blocks@.len() == 0,
            w.champis@.len() == 0,
    {
        World { mario: Mario::new(), blocks: Vec::new(), champis: Vec::new() }
    }

    /// Adds a block at level load. Refused — the world is left untouched —
    /// when the identifier is already taken by a block, or when a champi
    /// already carrying it is not hidden any more; both would break the
    /// pairing the interaction resolver relies on.
    pub fn spawn_block(&mut self, entity: u64, id: i32) -> (ok: bool)
        requires
            old(self).wf(),
        ensures
            final(self).wf(),
            ok == (block_id_free(old(self).blocks@, id) && champis_hidden_for(
                old(self).champis@,
                id,
            )),
            ok ==> final(self).blocks@ == old(self).blocks@.push(
                Block { entity, id, opened: false },
            ),
            !ok ==> final(self).blocks@ == old(self).blocks@,
            final(self).mario == old(self).mario,
            final(self).champis@ == old(self).champis@,
    {
        if self.block_id_is_free(id) && self.champis_are_hidden_for(id) {
            self.blocks.push(Block { entity, id, opened: false });
            true
        } else {
            false
        }
    }

    /// Adds a champi at level load: hidden, fixed at its spawn point, its
    /// rise target `CHAMPI_TARGET_OFFSET` above the spawn height.
    pub fn spawn_champi(&mut self, entity: u64, block_id: i32, x: i64, y: i64)
        requires
            old(self).wf(),
            y + CHAMPI_TARGET_OFFSET <= i64::MAX,
        ensures
            final(self).wf(),
            final(self).champis@ == old(self).champis@.push(initial_champi(entity, block_id, x, y)),
            final(self).mario == old(self).mario,
            final(self).blocks@ == old(self).blocks@,
    {
        let c = Champi::new(entity, block_id, x, y);
        self.champis.push(c);
    }

    fn block_id_is_free(&self, id: i32) -> (r: bool)
        ensures
            r == block_id_free(self.blocks@, id),
    {
        let len = self.blocks.len();
        let mut i: usize = 0;
        while i < len
            invariant
                len == self.blocks@.len(),
                0 <= i <= len,
                forall|k: int| 0 <= k < i ==> #[trigger] self.blocks@[k].id != id,
            decreases len - i,
        {
            if self.blocks[i].id == id {
                return false;
            }
            i = i + 1;
        }
        true
    }

    fn champis_are_hidden_for(&self, id: i32) -> (r: bool)
        ensures
            r == champis_hidden_for(self.champis@, id),
    {
        let len = self.champis.len();
        let mut j: usize = 0;
        while j < len
            invariant
                len == self.champis@.len(),
                0 <= j <= len,
                forall|k: int|
                    0 <= k < j && (#[trigger] self.champis@[k]).block_id == id ==> (
                    !self.champis@[k].visible && !self.champis@[k].upcoming
                        && self.champis@[k].body is Fixed),
            decreases len - j,
        {
            let c = self.champis[j];
            if c.block_id == id && (c.visible || c.upcoming || matches!(c.body, crate::champi::BodyMode::Dynamic)) {
                return false;
            }
            j = j + 1;
        }
        true
    }

    /// One simulation tick. Takes the polled input, the tick's length in
    /// milliseconds, and the physics engine's feedback for the previous
    /// displacement; mutates the world through the fixed stage order and
    /// returns the displacement the engine should resolve next, with the
    /// animation to present.
    ///
    /// Every effect of the tick is pinned down: the horizontal intent and
    /// the rise/fall displacement, the controller's jump and filter state,
    /// which blocks open, which champis are revealed, picked up and moved,
    /// the grown flag, the facing direction and the animation.
    pub fn tick(&mut self, input: Input, dt_ms: u32, phys: &PhysicsOutput) -> (out: TickOutput)
        requires
            old(self).wf(),
            forall|j: int|
                0 <= j < old(self).champis@.len() ==> (#[trigger] old(self).champis@[j]).y
                    + CHAMPI_RISE_STEP <= i64::MAX && old(self).champis@[j].x + CHAMPI_ROAM_STEP
                    <= i64::MAX,
        ensures
            final(self).wf(),
            out.dx == horizontal_intent(input.left, input.right, dt_ms),
            out.dy == controller_dy(old(self).mario, input.up, phys.grounded, dt_ms),
            out.animation == animation_for(phys.desired_x, phys.grounded),
            final(self).mario == ({
                let m = controller_mario(old(self).mario, input.up, phys.grounded, dt_ms);
                let grown = m.grown || tick_pickup_happens(
                    old(self).champis@,
                    phys.contacts@,
                    old(self).blocks@,
                );
                Mario { facing: facing_after(m.facing, phys.desired_x), grown, ..m }
            }),
            final(self).blocks@.len() == old(self).blocks@.len(),
            forall|i: int|
                0 <= i < old(self).blocks@.len() ==> final(self).blocks@[i] == block_after(
                    old(self).blocks@[i],
                    phys.contacts@,
                ),
            final(self).champis@.len() == old(self).champis@.len(),
            forall|j: int|
                0 <= j < old(self).champis@.len() ==> final(self).champis@[j] == champi_after_tick(
                    old(self).champis@[j],
                    phys.contacts@,
                    old(self).blocks@,
                    old(self).champis@,
                ),
    {
        let ghost m0 = self.mario;
        let ghost blocks0 = self.blocks@;
        let ghost champis0 = self.champis@;

        // Controller: horizontal intent, landing, jump start, rise or fall.
        let dx = compute_horizontal_intent(input.left, input.right, dt_ms);
        self.mario.land(phys.grounded);
        self.mario.try_start_jump(input.up, phys.grounded);
        let dy: i64 = if self.mario.has_active_jump() {
            self.mario.apply_rise(dt_ms)
        } else {
            self.mario.apply_fall(dt_ms)
        };
        proof {
            assert(self.mario == controller_mario(m0, input.up, phys.grounded, dt_ms));
            assert(dy == controller_dy(m0, input.up, phys.grounded, dt_ms));
        }

        // Interaction resolver: block activation, then power-up pickup.
        resolve_block_activation(&phys.contacts, &mut self.blocks, &mut self.champis);
        let ghost champis1 = self.champis@;
        proof {
            assert(champis1 =~= revealed_champis(champis0, phys.contacts@, blocks0));
        }
        resolve_powerup_pickup(&phys.contacts, &mut self.champis, &mut self.mario);
        let ghost champis2 = self.champis@;

        // Direction and animation, from the engine's echoed feedback.
        self.mario.update_direction(phys.desired_x);
        let animation = select_animation(phys.desired_x, phys.grounded);
        let ghost mario_done = self.mario;
        let ghost blocks_done = self.blocks@;

        // The champis after both scans are well-formed and still at their
        // old coordinates, so each may take its motion step.
        proof {
            assert forall|j: int| 0 <= j < champis2.len() implies (#[trigger] champis2[j]).wf()
                && champis2[j].x == champis0[j].x && champis2[j].y == champis0[j].y by {
                assert(champis2[j] == champi_picked(
                    champi_revealed(champis0[j], phys.contacts@, blocks0, champis0),
                    phys.contacts@,
                ));
                if crate::block::reveal_condition(champis0[j], phys.contacts@, blocks0, champis0) {
                    let i = choose|i: int|
                        0 <= i < blocks0.len() && !blocks0[i].opened && blocks0[i].id
                            == champis0[j].block_id && crate::contact::struck_from_below(
                            phys.contacts@,
                            blocks0[i].entity,
                        );
                    assert(!champis0[j].upcoming && champis0[j].body is Fixed);
                }
            }
        }

        // Power-up lifecycle: each champi takes its presentation-and-motion
        // step.
        let n = self.champis.len();
        let mut j: usize = 0;
        while j < n
            invariant
                n == champis2.len(),
                self.champis@.len() == champis2.len(),
                champis2.len() == champis0.len(),
                self.mario == mario_done,
                self.blocks@ == blocks_done,
                0 <= j <= n,
                forall|k: int|
                    0 <= k < champis2.len() ==> (#[trigger] champis2[k]).wf() && champis2[k].x
                        == champis0[k].x && champis2[k].y == champis0[k].y,
                forall|k: int|
                    0 <= k < champis0.len() ==> (#[trigger] champis0[k]).y + CHAMPI_RISE_STEP
                        <= i64::MAX && champis0[k].x + CHAMPI_ROAM_STEP <= i64::MAX,
                forall|k: int|
                    0 <= k < j ==> #[trigger] self.champis@[k] == champi_translated(champis2[k]),
                forall|k: int| j <= k < n ==> #[trigger] self.champis@[k] == champis2[k],
            decreases n - j,
        {
            let mut c = self.champis[j];
            c.apply_translation();
            self.champis[j] = c;
            j = j + 1;
        }

        // The tick preserves the world invariant: the controller methods
        // keep the controller well-formed, the motion step keeps each
        // champi well-formed, opening keeps block identifiers, and a champi
        // whose block stays unopened was not revealed — its block was not
        // struck — so it stays hidden.
        proof {
            assert forall|i1: int, i2: int| 0 <= i1 < i2 < self.blocks@.len() implies #[trigger] self.blocks@[i1].id != #[trigger] self.blocks@[i2].id by {
                assert(self.blocks@[i1] == block_after(blocks0[i1], phys.contacts@));
                assert(self.blocks@[i2] == block_after(blocks0[i2], phys.contacts@));
            }
            assert forall|i: int, j2: int|
                0 <= i < self.blocks@.len() && 0 <= j2 < self.champis@.len()
                    && !self.blocks@[i].opened && #[trigger] self.blocks@[i].id
                    == #[trigger] self.champis@[j2].block_id implies (!self.champis@[j2].visible
                && !self.champis@[j2].upcoming && self.champis@[j2].body is Fixed) by {
                assert(self.blocks@[i] == block_after(blocks0[i], phys.contacts@));
                assert(!blocks0[i].opened);
                assert(!crate::contact::struck_from_below(phys.contacts@, blocks0[i].entity));
                let c0 = champis0[j2];
                assert(!c0.visible && !c0.upcoming && c0.body is Fixed);
                assert(!reveal_source_exists(phys.contacts@, blocks0, c0.block_id)) by {
                    if reveal_source_exists(phys.contacts@, blocks0, c0.block_id) {
                        let i3 = choose|i3: int|
                            0 <= i3 < blocks0.len() && !blocks0[i3].opened && blocks0[i3].id
                                == c0.block_id && crate::contact::struck_from_below(
                                phys.contacts@,
                                blocks0[i3].entity,
                            );
                        assert(blocks0[i3].id == blocks0[i].id);
                        assert(i3 == i);
                    }
                }
                assert(self.champis@[j2] == champi_translated(champis2[j2]));
            }
        }

        TickOutput { dx, dy, animation }
    }
}

/// Whether no block of the list carries the identifier yet.
pub open spec fn block_id_free(blocks: Seq<Block>, id: i32) -> bool {
    forall|i: int| 0 <= i < blocks.len() ==> #[trigger] blocks[i].id != id
}

/// Whether every champi carrying the identifier is still hidden: not
/// visible, not rising, its body fixed.
pub open spec fn champis_hidden_for(champis: Seq<Champi>, id: i32) -> bool {
    forall|j: int|
        0 <= j < champis.len() && (#[trigger] champis[j]).block_id == id ==> (!champis[j].visible
            && !champis[j].upcoming && champis[j].body is Fixed)
}

} // verus!
