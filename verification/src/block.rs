//! Power-up blocks and the block-activation scan.
//!
//! A block is opened by a contact that strikes it from below (the player's
//! head hits its underside). Opening is one-way: the opened flag never
//! reverts, and an already-opened block never re-triggers its reveal
//! effect, however many qualifying contacts arrive. When a block opens,
//! and exactly one champi carries the block's stable identifier, that
//! champi is revealed: it becomes visible and starts rising.

use vstd::prelude::*;

use crate::champi::Champi;
use crate::contact::Contact;
use crate::contact::from_below;
use crate::contact::struck_from_below;
use crate::units::NORMAL_ONE;

verus! {

/// One power-up block.
#[derive(Clone, Copy, PartialEq, Eq, Structural, Debug)]
pub struct Block {
    /// Stable handle of this block's entity, matched against contacts.
    pub entity: u64,
    /// Stable identifier pairing this block with one champi. Never an
    /// engine handle: handles are transient and may be reused.
    pub id: i32,
    /// Whether the block has been opened; one-way, never reverts.
    pub opened: bool,
}

impl Block {
    /// A block as created at level load: not yet opened.
    pub fn new(entity: u64, id: i32) -> (b: Block)
        ensures
            b.entity == entity,
            b.id == id,
            !b.opened,
    {
        Block { entity, id, opened: false }
    }
}

/// What the presentation layer should show for a block: the animation
/// cycle of a live block, or the inert opened sprite.
#[derive(Clone, Copy, PartialEq, Eq, Structural, Debug)]
pub enum BlockSprite {
    Cycling,
    Opened,
}

/// Selects the block's sprite for this tick: an opened block drops its
/// animation cycle and shows the opened sprite, for good.
pub fn select_block_sprite(b: &Block) -> (s: BlockSprite)
    ensures
        s == (if b.opened {
            BlockSprite::Opened
        } else {
            BlockSprite::Cycling
        }),
{
    if b.opened {
        BlockSprite::Opened
    } else {
        BlockSprite::Cycling
    }
}

/// The block after the activation scan: opened if it already was, or if
/// this tick's contacts struck it from below; nothing else changes.
pub open spec fn block_after(b: Block, contacts: Seq<Contact>) -> Block {
    if !b.opened && struck_from_below(contacts, b.entity) {
        Block { opened: true, ..b }
    } else {
        b
    }
}

/// How many champis of the list carry the given block identifier.
pub open spec fn count_matching(champis: Seq<Champi>, id: i32) -> nat
    decreases champis.len(),
{
    if champis.len() == 0 {
        0
    } else {
        count_matching(champis.drop_last(), id) + (if champis.last().block_id == id {
            1nat
        } else {
            0nat
        })
    }
}

/// Whether some block of the list is opened by this tick's contacts — it
/// was not yet opened, it was struck from below — and carries `id`.
pub open spec fn reveal_source_exists(contacts: Seq<Contact>, blocks: Seq<Block>, id: i32) -> bool {
    exists|i: int|
        0 <= i < blocks.len() && !blocks[i].opened && blocks[i].id == id && struck_from_below(
            contacts,
            blocks[i].entity,
        )
}

/// Whether the activation scan reveals this champi: a block carrying its
/// identifier is opened this tick, and it is the only champi carrying
/// that identifier.
pub open spec fn reveal_condition(
    c: Champi,
    contacts: Seq<Contact>,
    blocks: Seq<Block>,
    champis: Seq<Champi>,
) -> bool {
    reveal_source_exists(contacts, blocks, c.block_id) && count_matching(champis, c.block_id) == 1
}

/// The champi after the activation scan: revealed — visible and rising —
/// when its block is opened this tick and it is the unique champi paired
/// with it; otherwise untouched.
pub open spec fn champi_revealed(
    c: Champi,
    contacts: Seq<Contact>,
    blocks: Seq<Block>,
    champis: Seq<Champi>,
) -> Champi {
    if reveal_condition(c, contacts, blocks, champis) {
        Champi { visible: true, upcoming: true, ..c }
    } else {
        c
    }
}

/// Counts the champis carrying the given block identifier.
fn count_champis_with_id(champis: &Vec<Champi>, id: i32) -> (n: usize)
    ensures
        n == count_matching(champis@, id),
{
    let len = champis.len();
    let mut n: usize = 0;
    let mut k: usize = 0;
    while k < len
        invariant
            len == champis@.len(),
            0 <= k <= len,
            n <= k,
            n == count_matching(champis@.take(k as int), id),
        decreases len - k,
    {
        proof {
            assert(champis@.take(k + 1).drop_last() =~= champis@.take(k as int));
            assert(champis@.take(k + 1).last() == champis@[k as int]);
        }
        if champis[k].block_id == id {
            n = n + 1;
        }
        k = k + 1;
    }
    proof {
        assert(champis@.take(len as int) =~= champis@);
    }
    n
}

/// Scans the blocks for one that this tick's contacts open and that
/// carries `id`.
fn find_reveal_source(contacts: &Vec<Contact>, blocks: &Vec<Block>, id: i32) -> (r: bool)
    ensures
        r == reveal_source_exists(contacts@, blocks@, id),
{
    let len = blocks.len();
    let mut i: usize = 0;
    while i < len
        invariant
            len == blocks@.len(),
            0 <= i <= len,
            forall|k: int|
                0 <= k < i ==> !(!blocks@[k].opened && blocks@[k].id == id && struck_from_below(
                    contacts@,
                    blocks@[k].entity,
                )),
        decreases len - i,
    {
        let b = blocks[i];
        if !b.opened && b.id == id && crate::contact::any_contact_from_below(contacts, b.entity) {
            return true;
        }
        i = i + 1;
    }
    false
}

/// The activation scan of one tick: every not-yet-opened block struck from
/// below by this tick's contacts is opened, one-way, and for each such
/// block the champi carrying its identifier — if exactly one does — is
/// revealed: made visible and set rising. Both effects are idempotent
/// within the tick: however many qualifying contacts strike one block, it
/// opens once and its champi is revealed once.
pub fn resolve_block_activation(contacts: &Vec<Contact>, blocks: &mut Vec<Block>, champis: &mut Vec<Champi>)
    ensures
        final(blocks)@.len() == old(blocks)@.len(),
        final(champis)@.len() == old(champis)@.len(),
        forall|i: int|
            0 <= i < old(blocks)@.len() ==> final(blocks)@[i] == block_after(
                old(blocks)@[i],
                contacts@,
            ),
        forall|j: int|
            0 <= j < old(champis)@.len() ==> final(champis)@[j] == champi_revealed(
                old(champis)@[j],
                contacts@,
                old(blocks)@,
                old(champis)@,
            ),
{
    let ghost blocks0 = blocks@;
    let ghost champis0 = champis@;

    // First the champis, judged against the blocks as they stood when the
    // tick's contacts arrived; the blocks are opened afterwards.
    let n_champis = champis.len();
    let mut j: usize = 0;
    while j < n_champis
        invariant
            n_champis == champis0.len(),
            champis@.len() == champis0.len(),
            blocks@ == blocks0,
            0 <= j <= n_champis,
            forall|k: int|
                0 <= k < j ==> champis@[k] == champi_revealed(champis0[k], contacts@, blocks0, champis0),
            forall|k: int| j <= k < n_champis ==> champis@[k] == champis0[k],
        decreases n_champis - j,
    {
        let c = champis[j];
        proof {
            assert(c == champis0[j as int]);
        }
        if find_reveal_source(contacts, blocks, c.block_id) {
            // The count is judged on block identifiers, which this loop
            // never changes; the list still counts as it did at entry.
            let cnt = count_champis_with_id(champis, c.block_id);
            proof {
                lemma_count_matching_same_ids(champis@, champis0, c.block_id);
            }
            if cnt == 1 {
                champis[j] = Champi { visible: true, upcoming: true, ..c };
            }
        }
        j = j + 1;
    }

    let n_blocks = blocks.len();
    let mut i: usize = 0;
    while i < n_blocks
        invariant
            n_blocks == blocks0.len(),
            blocks@.len() == blocks0.len(),
            0 <= i <= n_blocks,
            forall|k: int| 0 <= k < i ==> blocks@[k] == block_after(blocks0[k], contacts@),
            forall|k: int| i <= k < n_blocks ==> blocks@[k] == blocks0[k],
        decreases n_blocks - i,
    {
        let b = blocks[i];
        if !b.opened && crate::contact::any_contact_from_below(contacts, b.entity) {
            blocks[i] = Block { opened: true, ..b };
        }
        i = i + 1;
    }
}

/// Two champi lists of the same length whose entries carry the same block
/// identifiers count every identifier alike.
pub proof fn lemma_count_matching_same_ids(a: Seq<Champi>, b: Seq<Champi>, id: i32)
    requires
        a.len() == b.len(),
        forall|k: int| 0 <= k < a.len() ==> a[k].block_id == b[k].block_id,
    ensures
        count_matching(a, id) == count_matching(b, id),
    decreases a.len(),
{
    if a.len() > 0 {
        lemma_count_matching_same_ids(a.drop_last(), b.drop_last(), id);
    }
}

/// Law (block idempotence, one-way opening): a block struck from below by
/// at least one qualifying contact of the tick ends opened; opening keeps
/// everything else of the block; and scanning the result against the same
/// contacts changes nothing further.
pub proof fn lemma_block_open_one_way(b: Block, contacts: Seq<Contact>)
    ensures
        block_after(b, contacts).opened == (b.opened || struck_from_below(contacts, b.entity)),
        block_after(b, contacts).entity == b.entity,
        block_after(b, contacts).id == b.id,
        block_after(block_after(b, contacts), contacts) == block_after(b, contacts),
{
}

/// Law (reveal happens exactly once): after one activation scan, a second
/// scan of the same contacts against the updated blocks and champis
/// reveals nothing more — every block that could open is already opened,
/// so no champi changes again.
pub proof fn lemma_reveal_once(
    contacts: Seq<Contact>,
    blocks: Seq<Block>,
    champis: Seq<Champi>,
    blocks2: Seq<Block>,
    champis2: Seq<Champi>,
    j: int,
)
    requires
        blocks2.len() == blocks.len(),
        forall|i: int| 0 <= i < blocks.len() ==> blocks2[i] == block_after(blocks[i], contacts),
        champis2.len() == champis.len(),
        forall|k: int|
            0 <= k < champis.len() ==> champis2[k] == champi_revealed(
                champis[k],
                contacts,
                blocks,
                champis,
            ),
        0 <= j < champis.len(),
    ensures
        champi_revealed(champis2[j], contacts, blocks2, champis2) == champis2[j],
{
    assert forall|i: int| 0 <= i < blocks2.len() implies !(!blocks2[i].opened
        && struck_from_below(contacts, blocks2[i].entity)) by {
        assert(blocks2[i] == block_after(blocks[i], contacts));
    }
    assert(!reveal_source_exists(contacts, blocks2, champis2[j].block_id));
}

/// Law (non-qualifying contacts are ignored): when every contact that
/// touches the block comes from a side or from above — its normal's
/// vertical component is not `-NORMAL_ONE` — the activation scan leaves
/// the block exactly as it was.
pub proof fn lemma_non_qualifying_contact(b: Block, contacts: Seq<Contact>)
    requires
        forall|k: int|
            0 <= k < contacts.len() && contacts[k].other == b.entity ==> contacts[k].normal_y
                != -NORMAL_ONE,
    ensures
        block_after(b, contacts) == b,
{
    assert forall|k: int| 0 <= k < contacts.len() implies !(contacts[k].other == b.entity
        && from_below(contacts[k])) by {}
    assert(!struck_from_below(contacts, b.entity));
}

/// Law (power-up pairing): the activation scan reveals a champi only for a
/// block that opens this tick and carries the champi's own identifier; a
/// champi with no such block — in particular one whose identifier matches
/// no struck block — is left exactly as it was, hidden if it was hidden.
pub proof fn lemma_powerup_pairing(
    c: Champi,
    contacts: Seq<Contact>,
    blocks: Seq<Block>,
    champis: Seq<Champi>,
)
    ensures
        reveal_condition(c, contacts, blocks, champis) ==> champi_revealed(
            c,
            contacts,
            blocks,
            champis,
        ) == (Champi { visible: true, upcoming: true, ..c }),
        !reveal_source_exists(contacts, blocks, c.block_id) ==> champi_revealed(
            c,
            contacts,
            blocks,
            champis,
        ) == c,
        champi_revealed(c, contacts, blocks, champis) != c ==> reveal_condition(
            c,
            contacts,
            blocks,
            champis,
        ),
        champi_revealed(c, contacts, blocks, champis).visible ==> c.visible || reveal_condition(
            c,
            contacts,
            blocks,
            champis,
        ),
{
}

} // verus!
