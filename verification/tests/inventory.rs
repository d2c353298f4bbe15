use game::items::{hotbar_label, inventory_groups, item_label, Inventory, ItemKind};

fn inventory_of(kinds: &[ItemKind]) -> Inventory {
    let mut inv = Inventory::default();
    for k in kinds {
        inv.add(*k);
    }
    inv
}

#[test]
fn new_inventory_is_empty() {
    let inv = Inventory::default();
    assert!(inv.items.is_empty());
    assert!(!inv.has_pill());
    assert!(!inv.has_key_for(0));
    assert!(inv.summary().is_empty());
}

#[test]
fn add_appends_in_order() {
    let inv = inventory_of(&[ItemKind::Cd, ItemKind::SanityPill, ItemKind::Key { room_id: 4 }]);
    assert_eq!(inv.items, vec![ItemKind::Cd, ItemKind::SanityPill, ItemKind::Key { room_id: 4 }]);
}

#[test]
fn key_is_found_only_for_its_room() {
    let inv = inventory_of(&[ItemKind::Key { room_id: 4 }]);
    assert!(inv.has_key_for(4));
    assert!(!inv.has_key_for(1));
}

#[test]
fn use_key_removes_first_matching_key_only() {
    let mut inv = inventory_of(&[
        ItemKind::Key { room_id: 1 },
        ItemKind::Cd,
        ItemKind::Key { room_id: 4 },
        ItemKind::Key { room_id: 4 },
    ]);
    assert!(inv.use_key_for(4));
    assert_eq!(
        inv.items,
        vec![ItemKind::Key { room_id: 1 }, ItemKind::Cd, ItemKind::Key { room_id: 4 }]
    );
    assert!(inv.use_key_for(4));
    assert_eq!(inv.items, vec![ItemKind::Key { room_id: 1 }, ItemKind::Cd]);
    assert!(!inv.use_key_for(4));
    assert_eq!(inv.items, vec![ItemKind::Key { room_id: 1 }, ItemKind::Cd]);
}

#[test]
fn use_pill_spends_one_pill() {
    let mut inv = inventory_of(&[ItemKind::WindUpToy, ItemKind::SanityPill, ItemKind::SanityPill]);
    assert!(inv.has_pill());
    assert!(inv.use_pill());
    assert_eq!(inv.items, vec![ItemKind::WindUpToy, ItemKind::SanityPill]);
    assert!(inv.use_pill());
    assert!(!inv.has_pill());
    assert!(!inv.use_pill());
    assert_eq!(inv.items, vec![ItemKind::WindUpToy]);
}

#[test]
fn cd_and_cd_player_checks() {
    let inv = inventory_of(&[ItemKind::CdPlayer]);
    assert!(inv.has_cd_player());
    assert!(!inv.has_cd());
    let inv = inventory_of(&[ItemKind::Cd]);
    assert!(inv.has_cd());
    assert!(!inv.has_cd_player());
}

#[test]
fn pick_up_then_spend_restores_inventory() {
    let mut inv = inventory_of(&[ItemKind::Cd, ItemKind::SanityPill]);
    let before = inv.items.clone();
    inv.add(ItemKind::Key { room_id: 7 });
    assert!(inv.has_key_for(7));
    assert!(inv.use_key_for(7));
    assert_eq!(inv.items, before);
}

#[test]
fn summary_counts_and_sorts_labels() {
    let inv = inventory_of(&[
        ItemKind::Key { room_id: 1 },
        ItemKind::SanityPill,
        ItemKind::Cd,
        ItemKind::Key { room_id: 2 },
        ItemKind::CdPlayer,
        ItemKind::WindUpToy,
        ItemKind::Cd,
    ]);
    assert_eq!(
        inv.summary(),
        vec![
            "CD Player x1".to_string(),
            "CD x2".to_string(),
            "Key x2".to_string(),
            "Sanity Pill x1".to_string(),
            "Wind-Up Toy x1".to_string(),
        ]
    );
}

#[test]
fn summary_matches_a_sorted_count() {
    let inv = inventory_of(&[ItemKind::WindUpToy, ItemKind::Key { room_id: 3 }, ItemKind::WindUpToy]);
    let lines = inv.summary();
    let mut sorted = lines.clone();
    sorted.sort();
    assert_eq!(lines, sorted);
    assert_eq!(lines, vec!["Key x1".to_string(), "Wind-Up Toy x2".to_string()]);
}

#[test]
fn summary_writes_multi_digit_counts() {
    let mut inv = Inventory::default();
    for _ in 0..12 {
        inv.add(ItemKind::SanityPill);
    }
    assert_eq!(inv.summary(), vec!["Sanity Pill x12".to_string()]);
    for _ in 0..88 {
        inv.add(ItemKind::SanityPill);
    }
    assert_eq!(inv.summary(), vec!["Sanity Pill x100".to_string()]);
}

#[test]
fn labels_of_all_kinds() {
    assert_eq!(item_label(&ItemKind::Key { room_id: 9 }), "Key");
    assert_eq!(item_label(&ItemKind::SanityPill), "Sanity Pill");
    assert_eq!(item_label(&ItemKind::WindUpToy), "Wind-Up Toy");
    assert_eq!(item_label(&ItemKind::Cd), "CD");
    assert_eq!(item_label(&ItemKind::CdPlayer), "CD Player");
}

#[test]
fn groups_follow_first_appearance() {
    let inv = inventory_of(&[
        ItemKind::SanityPill,
        ItemKind::Key { room_id: 1 },
        ItemKind::SanityPill,
        ItemKind::Key { room_id: 5 },
        ItemKind::Cd,
        ItemKind::SanityPill,
    ]);
    assert_eq!(inventory_groups(&inv.items), vec![("Sanity Pill", 3), ("Key", 2), ("CD", 1)]);
    assert_eq!(inventory_groups(&Vec::new()), Vec::<(&str, usize)>::new());
}

#[test]
fn hotbar_shows_labels_or_dot() {
    let inv = inventory_of(&[ItemKind::Cd, ItemKind::WindUpToy]);
    assert_eq!(hotbar_label(&inv, 0), "CD");
    assert_eq!(hotbar_label(&inv, 1), "Wind-Up Toy");
    assert_eq!(hotbar_label(&inv, 2), "\u{b7}");
}

#[test]
fn groups_agree_with_summary_counts() {
    let inv = inventory_of(&[
        ItemKind::WindUpToy,
        ItemKind::Cd,
        ItemKind::Key { room_id: 2 },
        ItemKind::Cd,
        ItemKind::CdPlayer,
        ItemKind::Key { room_id: 8 },
        ItemKind::Cd,
    ]);
    let mut from_groups: Vec<String> = inventory_groups(&inv.items)
        .into_iter()
        .map(|(label, n)| format!("{} x{}", label, n))
        .collect();
    from_groups.sort();
    assert_eq!(from_groups, inv.summary());
    let total: usize = inventory_groups(&inv.items).iter().map(|g| g.1).sum();
    assert_eq!(total, inv.items.len());
}
