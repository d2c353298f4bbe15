use vstd::prelude::*;

use crate::items::{count_rank, remove_first, without_first, Inventory, ItemKind};
use crate::world::{
    door_opened, initial_doors, unchanged, unlocks, World, ROOM_BATH, ROOM_BED_A, ROOM_BED_B,
    ROOM_DINING, ROOM_F2_BATH, ROOM_F2_BED_A, ROOM_F2_BED_B, ROOM_F2_HALL, ROOM_HALL,
    ROOM_KITCHEN,
};

verus! {

/// The items placed in the hotel when a game starts, in placement order:
/// ten keys, four sanity pills, a wind-up toy, a CD and a CD player.
pub open spec fn starting_items() -> Seq<ItemKind> {
    seq![
        ItemKind::Key { room_id: ROOM_HALL },
        ItemKind::Key { room_id: ROOM_BATH },
        ItemKind::Key { room_id: ROOM_BED_A },
        ItemKind::Key { room_id: ROOM_BED_B },
        ItemKind::Key { room_id: ROOM_KITCHEN },
        ItemKind::Key { room_id: ROOM_DINING },
        ItemKind::Key { room_id: ROOM_F2_HALL },
        ItemKind::Key { room_id: ROOM_F2_BATH },
        ItemKind::Key { room_id: ROOM_F2_BED_A },
        ItemKind::Key { room_id: ROOM_F2_BED_B },
        ItemKind::SanityPill,
        ItemKind::SanityPill,
        ItemKind::SanityPill,
        ItemKind::SanityPill,
        ItemKind::WindUpToy,
        ItemKind::Cd,
        ItemKind::CdPlayer,
    ]
}

/// The kinds of the items placed in the hotel when a game starts.
pub fn starting_item_kinds() -> (r: Vec<ItemKind>)
    ensures
        r@ == starting_items(),
{
    let r = vec![
        ItemKind::Key { room_id: ROOM_HALL },
        ItemKind::Key { room_id: ROOM_BATH },
        ItemKind::Key { room_id: ROOM_BED_A },
        ItemKind::Key { room_id: ROOM_BED_B },
        ItemKind::Key { room_id: ROOM_KITCHEN },
        ItemKind::Key { room_id: ROOM_DINING },
        ItemKind::Key { room_id: ROOM_F2_HALL },
        ItemKind::Key { room_id: ROOM_F2_BATH },
        ItemKind::Key { room_id: ROOM_F2_BED_A },
        ItemKind::Key { room_id: ROOM_F2_BED_B },
        ItemKind::SanityPill,
        ItemKind::SanityPill,
        ItemKind::SanityPill,
        ItemKind::SanityPill,
        ItemKind::WindUpToy,
        ItemKind::Cd,
        ItemKind::CdPlayer,
    ];
    assert(r@ =~= starting_items());
    r
}

/// Every door that is locked when a game starts has its key placed in the
/// hotel, so no locked door is out of reach for want of a key.
pub proof fn every_locked_door_has_a_key()
    ensures
        forall|i: int|
            0 <= i < initial_doors().len() && (#[trigger] initial_doors()[i]).locked
                ==> starting_items().contains(
                ItemKind::Key { room_id: initial_doors()[i].key_room_id },
            ),
{
    let d = initial_doors();
    let s = starting_items();
    assert(s[0] == ItemKind::Key { room_id: d[0].key_room_id });
    assert(s[1] == ItemKind::Key { room_id: d[1].key_room_id });
    assert(s[2] == ItemKind::Key { room_id: d[2].key_room_id });
    assert(s[3] == ItemKind::Key { room_id: d[4].key_room_id });
    assert(s[4] == ItemKind::Key { room_id: d[5].key_room_id });
    assert(s[5] == ItemKind::Key { room_id: d[6].key_room_id });
    assert(s[9] == ItemKind::Key { room_id: d[7].key_room_id });
    assert(s[7] == ItemKind::Key { room_id: d[8].key_room_id });
    assert(s[8] == ItemKind::Key { room_id: d[9].key_room_id });
    assert(s[6] == ItemKind::Key { room_id: d[10].key_room_id });
    assert forall|i: int|
        0 <= i < d.len() && (#[trigger] d[i]).locked implies s.contains(
        ItemKind::Key { room_id: d[i].key_room_id },
    ) by {
        if i == 0 {
            assert(s[0] == ItemKind::Key { room_id: d[i].key_room_id });
        } else if i == 1 {
            assert(s[1] == ItemKind::Key { room_id: d[i].key_room_id });
        } else if i == 2 {
            assert(s[2] == ItemKind::Key { room_id: d[i].key_room_id });
        } else if i == 4 {
            assert(s[3] == ItemKind::Key { room_id: d[i].key_room_id });
        } else if i == 5 {
            assert(s[4] == ItemKind::Key { room_id: d[i].key_room_id });
        } else if i == 6 {
            assert(s[5] == ItemKind::Key { room_id: d[i].key_room_id });
        } else if i == 7 {
            assert(s[9] == ItemKind::Key { room_id: d[i].key_room_id });
        } else if i == 8 {
            assert(s[7] == ItemKind::Key { room_id: d[i].key_room_id });
        } else if i == 9 {
            assert(s[8] == ItemKind::Key { room_id: d[i].key_room_id });
        } else if i == 10 {
            assert(s[6] == ItemKind::Key { room_id: d[i].key_room_id });
        }
    }
}

/// Only a sanity pill is used as a pill and only a wind-up toy as a toy;
/// keys, CDs and CD players are unusable, and a slot past the end is empty.
pub proof fn selected_use_by_kind(items: Seq<ItemKind>, slot: int)
    ensures
        selected_use_of(items, slot) == SelectedUse::Nothing <==> !(0 <= slot < items.len()),
        selected_use_of(items, slot) == SelectedUse::Pill <==> (0 <= slot < items.len()
            && items[slot] == ItemKind::SanityPill),
        selected_use_of(items, slot) == SelectedUse::WindUpToy <==> (0 <= slot < items.len()
            && items[slot] == ItemKind::WindUpToy),
        0 <= slot < items.len() && (items[slot] is Key || items[slot] == ItemKind::Cd
            || items[slot] == ItemKind::CdPlayer) ==> selected_use_of(items, slot)
            == SelectedUse::Unusable,
{
}

/// The selection moves only when it points at or past the end of the
/// inventory afterwards, and then exactly one slot back (never below 0);
/// in particular a selection inside the inventory stays where it is.
pub proof fn selection_moves_only_past_the_end(slot: usize, len: nat)
    ensures
        slot < len ==> slot_after_use(slot, len) == slot,
        slot == 0 ==> slot_after_use(slot, len) == 0,
        slot >= len && slot > 0 ==> slot_after_use(slot, len) + 1 == slot,
        slot_after_use(slot, len) <= slot,
{
}

/// The hotel starts with ten keys, four sanity pills, one wind-up toy, one
/// CD and one CD player, and nothing else.
pub proof fn starting_item_counts()
    ensures
        starting_items().len() == 17,
        count_rank(starting_items(), 0) == 1,
        count_rank(starting_items(), 1) == 1,
        count_rank(starting_items(), 2) == 10,
        count_rank(starting_items(), 3) == 4,
        count_rank(starting_items(), 4) == 1,
        starting_items().contains(ItemKind::CdPlayer),
        starting_items().contains(ItemKind::Cd),
        forall|i: int| 0 <= i < 10 ==> (#[trigger] starting_items()[i]) is Key,
        forall|i: int| 10 <= i < 14 ==> #[trigger] starting_items()[i] == ItemKind::SanityPill,
{
    let s = starting_items();
    assert(s[16] == ItemKind::CdPlayer);
    assert(s[15] == ItemKind::Cd);
    reveal_with_fuel(count_rank, 18);
    assert(s.drop_last() =~= s.subrange(0, 16));
}

/// What happened when the player used a door.
#[derive(Clone, Copy, Debug, PartialEq, Eq, Structural)]
pub enum DoorOutcome {
    /// The door was locked and the player's key opened it (the key is spent).
    Unlocked,
    /// The door is locked and the player has no key for it.
    NeedKey,
    /// The door was closed but not locked and is now open.
    PushedOpen,
    /// The door was already open.
    AlreadyOpen,
}

/// Whether using door `door_idx` opens it.
pub open spec fn door_opens(world: World, inventory: Inventory, door_idx: int) -> bool {
    let d = world.doors@[door_idx];
    if d.locked {
        inventory.items@.contains(ItemKind::Key { room_id: d.key_room_id })
    } else {
        !d.open
    }
}

/// The player uses door `door_idx`: a locked door opens with its key, which
/// is spent; a closed unlocked door is pushed open; opening a door unlocks the
/// room behind it.
pub fn use_door(world: &mut World, inventory: &mut Inventory, door_idx: usize) -> (r: DoorOutcome)
    requires
        door_idx < old(world).doors@.len(),
        door_opens(*old(world), *old(inventory), door_idx as int) && unlocks(
            old(world).rooms@,
            old(world).doors@[door_idx as int].room_b,
        ) ==> old(world).rooms_unlocked < usize::MAX,
    ensures
        ({
            let d = old(world).doors@[door_idx as int];
            let key = ItemKind::Key { room_id: d.key_room_id };
            &&& r == if d.locked {
                if old(inventory).items@.contains(key) {
                    DoorOutcome::Unlocked
                } else {
                    DoorOutcome::NeedKey
                }
            } else if !d.open {
                DoorOutcome::PushedOpen
            } else {
                DoorOutcome::AlreadyOpen
            }
            &&& final(inventory).items@ == if d.locked {
                without_first(old(inventory).items@, key)
            } else {
                old(inventory).items@
            }
            &&& door_opens(*old(world), *old(inventory), door_idx as int) ==> door_opened(
                *old(world),
                *final(world),
                door_idx as int,
            )
            &&& !door_opens(*old(world), *old(inventory), door_idx as int) ==> unchanged(
                *old(world),
                *final(world),
            )
        }),
{
    let d = world.doors[door_idx];
    if d.locked {
        if inventory.use_key_for(d.key_room_id) {
            world.open_door(door_idx);
            DoorOutcome::Unlocked
        } else {
            DoorOutcome::NeedKey
        }
    } else if !d.open {
        world.open_door(door_idx);
        DoorOutcome::PushedOpen
    } else {
        DoorOutcome::AlreadyOpen
    }
}

/// What happened when the player used the CD player.
#[derive(Clone, Copy, Debug, PartialEq, Eq, Structural)]
pub enum CdPlayerOutcome {
    /// Music is already playing.
    AlreadyPlaying,
    /// A CD from the inventory went into the player; music starts.
    Inserted,
    /// No music, and the player carries no CD.
    NeedCd,
}

/// The player uses the CD player: with music already playing nothing changes;
/// otherwise a carried CD is spent to start the music.
pub fn use_cd_player(inventory: &mut Inventory, cd_playing: bool) -> (r: CdPlayerOutcome)
    ensures
        cd_playing ==> r == CdPlayerOutcome::AlreadyPlaying && final(inventory).items@ == old(
            inventory,
        ).items@,
        !cd_playing && old(inventory).items@.contains(ItemKind::Cd) ==> r
            == CdPlayerOutcome::Inserted && final(inventory).items@ == without_first(
            old(inventory).items@,
            ItemKind::Cd,
        ),
        !cd_playing && !old(inventory).items@.contains(ItemKind::Cd) ==> r
            == CdPlayerOutcome::NeedCd && final(inventory).items@ == old(inventory).items@,
{
    if cd_playing {
        CdPlayerOutcome::AlreadyPlaying
    } else if inventory.has_cd() {
        remove_first(&mut inventory.items, ItemKind::Cd);
        CdPlayerOutcome::Inserted
    } else {
        CdPlayerOutcome::NeedCd
    }
}

/// What the selected hotbar slot holds, as far as using it goes.
#[derive(Clone, Copy, Debug, PartialEq, Eq, Structural)]
pub enum SelectedUse {
    /// A sanity pill; it is spent only when it helps.
    Pill,
    /// A wind-up toy; it is always spent (set down in the world).
    WindUpToy,
    /// Something that cannot be used from the hotbar.
    Unusable,
    /// The slot is empty.
    Nothing,
}

/// How slot `slot` of `items` is used.
pub open spec fn selected_use_of(items: Seq<ItemKind>, slot: int) -> SelectedUse {
    if 0 <= slot < items.len() {
        match items[slot] {
            ItemKind::SanityPill => SelectedUse::Pill,
            ItemKind::WindUpToy => SelectedUse::WindUpToy,
            _ => SelectedUse::Unusable,
        }
    } else {
        SelectedUse::Nothing
    }
}

/// Classifies the selected hotbar slot.
pub fn selected_use(inventory: &Inventory, slot: usize) -> (r: SelectedUse)
    ensures
        r == selected_use_of(inventory.items@, slot as int),
{
    if slot < inventory.items.len() {
        match inventory.items[slot] {
            ItemKind::SanityPill => SelectedUse::Pill,
            ItemKind::WindUpToy => SelectedUse::WindUpToy,
            _ => SelectedUse::Unusable,
        }
    } else {
        SelectedUse::Nothing
    }
}

/// The selected slot after the inventory shrank to `len` items: one step
/// back when it points past the end (and is not the first slot).
pub open spec fn slot_after_use(slot: usize, len: nat) -> usize {
    if slot >= len && slot > 0 {
        (slot - 1) as usize
    } else {
        slot
    }
}

/// Finishes using the selected slot: removes the item when it was `consumed`
/// and returns the selected slot to keep.
pub fn finish_use(inventory: &mut Inventory, slot: usize, consumed: bool) -> (r: usize)
    requires
        consumed ==> slot < old(inventory).items@.len(),
    ensures
        final(inventory).items@ == if consumed {
            old(inventory).items@.remove(slot as int)
        } else {
            old(inventory).items@
        },
        r == slot_after_use(slot, final(inventory).items@.len()),
{
    if consumed {
        inventory.items.remove(slot);
    }
    if slot >= inventory.items.len() && slot > 0 {
        slot - 1
    } else {
        slot
    }
}

} // verus!
