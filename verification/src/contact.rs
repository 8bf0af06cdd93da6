//! Contact events, as the physics engine reports them each tick.
//!
//! A contact is ephemeral: the interaction logic re-derives every decision
//! from the current tick's contact list and keeps no memory of past
//! contacts. The surface normal's components are fixed-point thousandths
//! (see `units::NORMAL_ONE`); a contact qualifies as "struck from below"
//! exactly when its vertical component is `-NORMAL_ONE`, the discretized
//! normal of a flat underside hit from beneath.

use vstd::prelude::*;

use crate::units::NORMAL_ONE;

verus! {

/// Outcome of the engine's continuous collision sweep for one contact.
#[derive(Clone, Copy, PartialEq, Eq, Structural, Debug)]
pub enum ToiStatus {
    Penetrating,
    Converged,
    Failed,
    OutOfIterations,
}

/// One contact event: the other entity involved, the contact surface normal
/// (components in thousandths of a unit), and the sweep status.
#[derive(Clone, Copy, PartialEq, Eq, Structural, Debug)]
pub struct Contact {
    /// Stable handle of the entity the character touched.
    pub other: u64,
    /// Horizontal component of the surface normal, in thousandths.
    pub normal_x: i32,
    /// Vertical component of the surface normal, in thousandths.
    pub normal_y: i32,
    /// Time-of-impact status of the sweep that produced this contact.
    pub toi: ToiStatus,
}

/// Whether one contact shows a surface hit from below: its normal points
/// straight down, at the character that struck it head-first.
pub open spec fn from_below(c: Contact) -> bool {
    c.normal_y == -NORMAL_ONE
}

/// Whether the tick's contact list holds a from-below hit on `entity`.
pub open spec fn struck_from_below(contacts: Seq<Contact>, entity: u64) -> bool {
    exists|k: int| 0 <= k < contacts.len() && contacts[k].other == entity && from_below(contacts[k])
}

/// Whether the tick's contact list touches `entity` at all, from any side.
pub open spec fn touches(contacts: Seq<Contact>, entity: u64) -> bool {
    exists|k: int| 0 <= k < contacts.len() && contacts[k].other == entity
}

/// Scans the tick's contacts for a from-below hit on `entity`.
pub fn any_contact_from_below(contacts: &Vec<Contact>, entity: u64) -> (r: bool)
    ensures
        r == struck_from_below(contacts@, entity),
{
    let n = contacts.len();
    let mut k: usize = 0;
    while k < n
        invariant
            n == contacts@.len(),
            0 <= k <= n,
            forall|j: int| 0 <= j < k ==> !(contacts@[j].other == entity && from_below(contacts@[j])),
        decreases n - k,
    {
        let c = contacts[k];
        if c.other == entity && c.normal_y == -NORMAL_ONE {
            assert(from_below(contacts@[k as int]));
            return true;
        }
        k = k + 1;
    }
    false
}

/// Scans the tick's contacts for any touch of `entity`.
pub fn any_contact_with(contacts: &Vec<Contact>, entity: u64) -> (r: bool)
    ensures
        r == touches(contacts@, entity),
{
    let n = contacts.len();
    let mut k: usize = 0;
    while k < n
        invariant
            n == contacts@.len(),
            0 <= k <= n,
            forall|j: int| 0 <= j < k ==> contacts@[j].other != entity,
        decreases n - k,
    {
        if contacts[k].other == entity {
            return true;
        }
        k = k + 1;
    }
    false
}

} // verus!
