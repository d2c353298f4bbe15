use game::items::{Inventory, ItemKind};
use game::playing::{
    finish_use, selected_use, starting_item_kinds, use_cd_player, use_door, CdPlayerOutcome,
    DoorOutcome, SelectedUse,
};
use game::world::{World, ROOM_BATH, ROOM_HALL};

#[test]
fn starting_items_hold_a_key_for_every_locked_door() {
    let items = starting_item_kinds();
    assert_eq!(items.len(), 17);
    let w = World::new();
    for d in w.doors.iter().filter(|d| d.locked) {
        assert!(items.contains(&ItemKind::Key { room_id: d.key_room_id }));
    }
    assert_eq!(items.iter().filter(|k| **k == ItemKind::SanityPill).count(), 4);
}

#[test]
fn locked_door_needs_its_key() {
    let mut w = World::new();
    let mut inv = Inventory::default();
    inv.add(ItemKind::Key { room_id: ROOM_BATH });
    assert_eq!(use_door(&mut w, &mut inv, 0), DoorOutcome::NeedKey);
    assert!(!w.doors[0].open);
    assert_eq!(inv.items.len(), 1);
    assert_eq!(w.rooms_unlocked, 1);
}

#[test]
fn key_unlocks_door_and_is_spent() {
    let mut w = World::new();
    let mut inv = Inventory::default();
    inv.add(ItemKind::Key { room_id: ROOM_HALL });
    assert_eq!(use_door(&mut w, &mut inv, 0), DoorOutcome::Unlocked);
    assert!(w.doors[0].open && !w.doors[0].locked);
    assert!(w.rooms[ROOM_BATH].unlocked);
    assert!(inv.items.is_empty());
    assert_eq!(w.rooms_unlocked, 2);
    assert_eq!(use_door(&mut w, &mut inv, 0), DoorOutcome::AlreadyOpen);
}

#[test]
fn unlocked_door_is_pushed_open() {
    let mut w = World::new();
    let mut inv = Inventory::default();
    inv.add(ItemKind::Cd);
    assert_eq!(use_door(&mut w, &mut inv, 3), DoorOutcome::PushedOpen);
    assert!(w.doors[3].open);
    assert!(w.rooms[ROOM_HALL].unlocked);
    assert_eq!(inv.items, vec![ItemKind::Cd]);
    assert_eq!(use_door(&mut w, &mut inv, 3), DoorOutcome::AlreadyOpen);
    assert_eq!(w.rooms_unlocked, 2);
}

#[test]
fn cd_player_outcomes() {
    let mut inv = Inventory::default();
    assert_eq!(use_cd_player(&mut inv, false), CdPlayerOutcome::NeedCd);
    inv.add(ItemKind::SanityPill);
    inv.add(ItemKind::Cd);
    assert_eq!(use_cd_player(&mut inv, true), CdPlayerOutcome::AlreadyPlaying);
    assert_eq!(inv.items.len(), 2);
    assert_eq!(use_cd_player(&mut inv, false), CdPlayerOutcome::Inserted);
    assert_eq!(inv.items, vec![ItemKind::SanityPill]);
}

#[test]
fn selected_use_classifies_slots() {
    let mut inv = Inventory::default();
    inv.add(ItemKind::SanityPill);
    inv.add(ItemKind::WindUpToy);
    inv.add(ItemKind::Key { room_id: 1 });
    assert_eq!(selected_use(&inv, 0), SelectedUse::Pill);
    assert_eq!(selected_use(&inv, 1), SelectedUse::WindUpToy);
    assert_eq!(selected_use(&inv, 2), SelectedUse::Unusable);
    assert_eq!(selected_use(&inv, 3), SelectedUse::Nothing);
}

#[test]
fn finish_use_removes_and_steps_back() {
    let mut inv = Inventory::default();
    inv.add(ItemKind::SanityPill);
    inv.add(ItemKind::WindUpToy);
    assert_eq!(finish_use(&mut inv, 1, true), 0);
    assert_eq!(inv.items, vec![ItemKind::SanityPill]);
    assert_eq!(finish_use(&mut inv, 0, false), 0);
    assert_eq!(inv.items, vec![ItemKind::SanityPill]);
    assert_eq!(finish_use(&mut inv, 0, true), 0);
    assert!(inv.items.is_empty());
    assert_eq!(finish_use(&mut inv, 4, false), 3);
}
