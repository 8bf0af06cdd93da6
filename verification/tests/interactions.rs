use platformer_core::block::resolve_block_activation;
use platformer_core::block::select_block_sprite;
use platformer_core::block::Block;
use platformer_core::block::BlockSprite;
use platformer_core::champi::resolve_powerup_pickup;
use platformer_core::champi::BodyMode;
use platformer_core::champi::Champi;
use platformer_core::contact::Contact;
use platformer_core::contact::ToiStatus;
use platformer_core::mario::Mario;

fn from_below_on(entity: u64) -> Contact {
    Contact { other: entity, normal_x: 0, normal_y: -1000, toi: ToiStatus::Converged }
}

#[test]
fn block_opens_from_below() {
    // Scenario: block id 1, unopened, one from-below contact.
    let mut blocks = vec![Block::new(7, 1)];
    let mut champis = vec![Champi::new(9, 1, 0, 6000)];
    let contacts = vec![from_below_on(7)];
    resolve_block_activation(&contacts, &mut blocks, &mut champis);
    assert!(blocks[0].opened);
    assert!(champis[0].visible);
    assert!(champis[0].upcoming);
    assert_eq!(champis[0].body, BodyMode::Fixed);
}

#[test]
fn non_qualifying_contact_ignored() {
    let mut blocks = vec![Block::new(7, 1)];
    let mut champis = vec![Champi::new(9, 1, 0, 6000)];
    // A side hit and a top hit: vertical component of the normal is not
    // -1, so the block must not open.
    let contacts = vec![
        Contact { other: 7, normal_x: 1000, normal_y: 0, toi: ToiStatus::Converged },
        Contact { other: 7, normal_x: 0, normal_y: 1000, toi: ToiStatus::Converged },
        Contact { other: 7, normal_x: 0, normal_y: -999, toi: ToiStatus::Converged },
    ];
    resolve_block_activation(&contacts, &mut blocks, &mut champis);
    assert!(!blocks[0].opened);
    assert!(!champis[0].visible);
    assert!(!champis[0].upcoming);
}

#[test]
fn contact_with_other_entity_ignored() {
    let mut blocks = vec![Block::new(7, 1)];
    let mut champis = vec![Champi::new(9, 1, 0, 6000)];
    let contacts = vec![from_below_on(8)];
    resolve_block_activation(&contacts, &mut blocks, &mut champis);
    assert!(!blocks[0].opened);
    assert!(!champis[0].visible);
}

#[test]
fn block_idempotent_under_many_contacts() {
    // N qualifying contacts in one tick open the block once and reveal
    // the paired champi once.
    let mut blocks = vec![Block::new(7, 1)];
    let mut champis = vec![Champi::new(9, 1, 0, 6000)];
    let contacts = vec![from_below_on(7), from_below_on(7), from_below_on(7)];
    resolve_block_activation(&contacts, &mut blocks, &mut champis);
    assert!(blocks[0].opened);
    assert!(champis[0].visible);
    assert!(champis[0].upcoming);

    // An opened block never re-triggers: after the champi finished its
    // rise, another tick of the same contacts must not set it rising
    // again.
    champis[0].upcoming = false;
    champis[0].body = BodyMode::Dynamic;
    resolve_block_activation(&contacts, &mut blocks, &mut champis);
    assert!(blocks[0].opened);
    assert!(champis[0].visible);
    assert!(!champis[0].upcoming);
    assert_eq!(champis[0].body, BodyMode::Dynamic);
}

#[test]
fn powerup_pairing_by_stable_id() {
    let mut blocks = vec![Block::new(7, 1), Block::new(8, 2)];
    let mut champis = vec![Champi::new(9, 1, 0, 6000), Champi::new(10, 2, 100, 6000)];
    let contacts = vec![from_below_on(7)];
    resolve_block_activation(&contacts, &mut blocks, &mut champis);
    assert!(blocks[0].opened);
    assert!(!blocks[1].opened);
    assert!(champis[0].visible);
    assert!(!champis[1].visible);
    assert!(!champis[1].upcoming);
}

#[test]
fn ambiguous_pairing_reveals_none() {
    // Two champis carry the same identifier: the pairing is not unique,
    // so the opened block reveals neither.
    let mut blocks = vec![Block::new(7, 1)];
    let mut champis = vec![Champi::new(9, 1, 0, 6000), Champi::new(10, 1, 100, 6000)];
    let contacts = vec![from_below_on(7)];
    resolve_block_activation(&contacts, &mut blocks, &mut champis);
    assert!(blocks[0].opened);
    assert!(!champis[0].visible);
    assert!(!champis[1].visible);
}

#[test]
fn opened_block_sprite() {
    let mut b = Block::new(7, 1);
    assert_eq!(select_block_sprite(&b), BlockSprite::Cycling);
    b.opened = true;
    assert_eq!(select_block_sprite(&b), BlockSprite::Opened);
}

#[test]
fn pickup_scenario() {
    // Scenario: a visible, released champi is touched by the player.
    let mut champis = vec![Champi::new(9, 1, 0, 6000)];
    champis[0].visible = true;
    champis[0].body = BodyMode::Dynamic;
    let mut mario = Mario::new();
    let contacts = vec![Contact { other: 9, normal_x: 0, normal_y: 1000, toi: ToiStatus::Converged }];
    resolve_powerup_pickup(&contacts, &mut champis, &mut mario);
    assert!(!champis[0].visible);
    assert!(!champis[0].has_collider);
    assert!(mario.grown);

    // A second contact with the now-gone champi changes nothing, and the
    // grown flag stays set.
    let champi_before = champis[0];
    resolve_powerup_pickup(&contacts, &mut champis, &mut mario);
    assert_eq!(champis[0], champi_before);
    assert!(mario.grown);

    let empty: Vec<Contact> = vec![];
    resolve_powerup_pickup(&empty, &mut champis, &mut mario);
    assert!(mario.grown);
}

#[test]
fn pickup_needs_visibility() {
    let mut champis = vec![Champi::new(9, 1, 0, 6000)];
    let mut mario = Mario::new();
    let contacts = vec![Contact { other: 9, normal_x: 0, normal_y: 1000, toi: ToiStatus::Converged }];
    resolve_powerup_pickup(&contacts, &mut champis, &mut mario);
    assert!(!champis[0].visible);
    assert!(champis[0].has_collider);
    assert!(!mario.grown);
}
