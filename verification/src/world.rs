use vstd::prelude::*;

verus! {

// Room ids. Floor 1:
pub const ROOM_MAIN: usize = 0;
pub const ROOM_BATH: usize = 1;
pub const ROOM_BED_A: usize = 2;
pub const ROOM_BED_B: usize = 3;
pub const ROOM_HALL: usize = 4;
pub const ROOM_KITCHEN: usize = 5;
pub const ROOM_DINING: usize = 6;
// Floor 2:
pub const ROOM_F2_BATH: usize = 7;
pub const ROOM_F2_BED_A: usize = 8;
pub const ROOM_F2_BED_B: usize = 9;
pub const ROOM_F2_HALL: usize = 10;
pub const ROOM_THE_ROOM: usize = 11;

/// A door between two rooms. A locked door opens with the key whose
/// `room_id` is `key_room_id`; opening it unlocks `room_b`.
#[derive(Clone, Copy, Debug)]
pub struct Door {
    pub room_a: usize,
    pub room_b: usize,
    pub locked: bool,
    pub key_room_id: usize,
    pub open: bool,
}

impl Door {
    /// A closed door.
    pub fn new(room_a: usize, room_b: usize, locked: bool, key_room_id: usize) -> (r: Self)
        ensures
            r == (Door { room_a, room_b, locked, key_room_id, open: false }),
    {
        Door { room_a, room_b, locked, key_room_id, open: false }
    }
}

/// How a door is drawn: open doors are dark, locked ones rust-coloured and
/// the others plain wood.
#[derive(Clone, Copy, Debug, PartialEq, Eq, Structural)]
pub enum DoorLook {
    Open,
    Locked,
    Closed,
}

impl Door {
    /// How this door is drawn; being open wins over being locked.
    pub fn look(&self) -> (r: DoorLook)
        ensures
            r == (if self.open {
                DoorLook::Open
            } else if self.locked {
                DoorLook::Locked
            } else {
                DoorLook::Closed
            }),
    {
        if self.open {
            DoorLook::Open
        } else if self.locked {
            DoorLook::Locked
        } else {
            DoorLook::Closed
        }
    }
}

/// A room of the hotel; only the main room is unlocked at the start.
#[derive(Clone, Copy, Debug)]
pub struct Room {
    pub id: usize,
    pub name: &'static str,
    pub floor: u8,
    pub unlocked: bool,
}

impl Room {
    /// A room, unlocked exactly when it is the main room.
    pub fn new(id: usize, name: &'static str, floor: u8) -> (r: Self)
        ensures
            r == (Room { id, name, floor, unlocked: id == ROOM_MAIN }),
    {
        Room { id, name, floor, unlocked: id == ROOM_MAIN }
    }
}

/// The rooms and doors of the hotel and how far the player got.
pub struct World {
    pub rooms: Vec<Room>,
    pub doors: Vec<Door>,
    pub current_floor: u8,
    pub rooms_unlocked: usize,
}

/// `i` is the first room of `rooms` with id `id`.
pub open spec fn is_first_room(rooms: Seq<Room>, id: usize, i: int) -> bool {
    &&& 0 <= i < rooms.len()
    &&& rooms[i].id == id
    &&& forall|j: int| 0 <= j < i ==> rooms[j].id != id
}

/// Some room has id `id`.
pub open spec fn has_room(rooms: Seq<Room>, id: usize) -> bool {
    exists|i: int| 0 <= i < rooms.len() && rooms[i].id == id
}

/// Position of the first room with id `id` (meaningful when `has_room`).
pub open spec fn first_room(rooms: Seq<Room>, id: usize) -> int {
    choose|i: int| is_first_room(rooms, id, i)
}

/// Unlocking `id` changes something: its room exists and is still locked.
pub open spec fn unlocks(rooms: Seq<Room>, id: usize) -> bool {
    has_room(rooms, id) && !rooms[first_room(rooms, id)].unlocked
}

/// The rooms after unlocking `id`.
pub open spec fn rooms_after_unlock(rooms: Seq<Room>, id: usize) -> Seq<Room> {
    if unlocks(rooms, id) {
        let i: int = first_room(rooms, id);
        rooms.update(i, Room { unlocked: true, ..rooms[i] })
    } else {
        rooms
    }
}

/// The door after it was opened.
pub open spec fn opened(d: Door) -> Door {
    Door { locked: false, open: true, ..d }
}

/// `after` is `before` with door `door_idx` opened and the room behind it unlocked.
pub open spec fn door_opened(before: World, after: World, door_idx: int) -> bool {
    let target: usize = before.doors@[door_idx].room_b;
    &&& after.doors@ == before.doors@.update(door_idx, opened(before.doors@[door_idx]))
    &&& after.rooms@ == rooms_after_unlock(before.rooms@, target)
    &&& after.rooms_unlocked == before.rooms_unlocked + if unlocks(before.rooms@, target) {
        1int
    } else {
        0int
    }
    &&& after.current_floor == before.current_floor
}

/// `after` holds the same rooms, doors and progress as `before`.
pub open spec fn unchanged(before: World, after: World) -> bool {
    &&& after.doors@ == before.doors@
    &&& after.rooms@ == before.rooms@
    &&& after.rooms_unlocked == before.rooms_unlocked
    &&& after.current_floor == before.current_floor
}

/// Number of unlocked rooms.
pub open spec fn count_unlocked(rooms: Seq<Room>) -> nat
    decreases rooms.len(),
{
    if rooms.len() == 0 {
        0
    } else {
        count_unlocked(rooms.drop_last()) + if rooms.last().unlocked {
            1nat
        } else {
            0nat
        }
    }
}

/// No two rooms share an id.
pub open spec fn distinct_ids(rooms: Seq<Room>) -> bool {
    forall|i: int, j: int| 0 <= i < rooms.len() && 0 <= j < rooms.len() && i != j
        ==> rooms[i].id != rooms[j].id
}

/// The rooms of a new world: id, name and floor.
pub open spec fn initial_rooms() -> Seq<Room> {
    seq![
        Room { id: ROOM_MAIN, name: "Main Room", floor: 1, unlocked: true },
        Room { id: ROOM_BATH, name: "Bathroom", floor: 1, unlocked: false },
        Room { id: ROOM_BED_A, name: "Bedroom", floor: 1, unlocked: false },
        Room { id: ROOM_BED_B, name: "Bedroom", floor: 1, unlocked: false },
        Room { id: ROOM_HALL, name: "Hall", floor: 1, unlocked: false },
        Room { id: ROOM_KITCHEN, name: "Kitchen", floor: 1, unlocked: false },
        Room { id: ROOM_DINING, name: "Dining Room", floor: 1, unlocked: false },
        Room { id: ROOM_F2_BATH, name: "Bathroom", floor: 2, unlocked: false },
        Room { id: ROOM_F2_BED_A, name: "Bedroom", floor: 2, unlocked: false },
        Room { id: ROOM_F2_BED_B, name: "Bedroom", floor: 2, unlocked: false },
        Room { id: ROOM_F2_HALL, name: "Upper Hall", floor: 2, unlocked: false },
        Room { id: ROOM_THE_ROOM, name: "The Room", floor: 2, unlocked: false },
    ]
}

/// The doors of a new world: each closed; the main room's door to the hall
/// is the one that starts unlocked, and every other door needs the key named.
pub open spec fn initial_doors() -> Seq<Door> {
    seq![
        Door { room_a: ROOM_MAIN, room_b: ROOM_BATH, locked: true, key_room_id: ROOM_HALL, open: false },
        Door { room_a: ROOM_MAIN, room_b: ROOM_BED_A, locked: true, key_room_id: ROOM_BATH, open: false },
        Door { room_a: ROOM_MAIN, room_b: ROOM_BED_B, locked: true, key_room_id: ROOM_BED_A, open: false },
        Door { room_a: ROOM_MAIN, room_b: ROOM_HALL, locked: false, key_room_id: 0, open: false },
        Door { room_a: ROOM_HALL, room_b: ROOM_KITCHEN, locked: true, key_room_id: ROOM_BED_B, open: false },
        Door { room_a: ROOM_HALL, room_b: ROOM_DINING, locked: true, key_room_id: ROOM_KITCHEN, open: false },
        Door { room_a: ROOM_HALL, room_b: ROOM_F2_HALL, locked: true, key_room_id: ROOM_DINING, open: false },
        Door { room_a: ROOM_F2_HALL, room_b: ROOM_F2_BATH, locked: true, key_room_id: ROOM_F2_BED_B, open: false },
        Door { room_a: ROOM_F2_HALL, room_b: ROOM_F2_BED_A, locked: true, key_room_id: ROOM_F2_BATH, open: false },
        Door { room_a: ROOM_F2_HALL, room_b: ROOM_F2_BED_B, locked: true, key_room_id: ROOM_F2_BED_A, open: false },
        Door { room_a: ROOM_F2_HALL, room_b: ROOM_THE_ROOM, locked: true, key_room_id: ROOM_F2_HALL, open: false },
    ]
}

impl World {
    /// The count of unlocked rooms is right and room ids are distinct.
    pub open spec fn wf(&self) -> bool {
        &&& distinct_ids(self.rooms@)
        &&& self.rooms_unlocked == count_unlocked(self.rooms@)
    }

    /// The hotel at the start: floor 1, only the main room unlocked.
    pub fn new() -> (r: Self)
        ensures
            r.rooms@ == initial_rooms(),
            r.doors@ == initial_doors(),
            r.current_floor == 1,
            r.rooms_unlocked == 1,
            r.wf(),
    {
        let rooms = build_rooms();
        let doors = build_doors();
        proof {
            reveal_with_fuel(count_unlocked, 13);
            assert(count_unlocked(initial_rooms()) == 1);
        }
        World { rooms, doors, current_floor: 1, rooms_unlocked: 1 }
    }

    /// Unlocks the first room with id `room_id`, counting it when it was locked.
    pub fn unlock_room(&mut self, room_id: usize)
        requires
            unlocks(old(self).rooms@, room_id) ==> old(self).rooms_unlocked < usize::MAX,
        ensures
            final(self).rooms@ == rooms_after_unlock(old(self).rooms@, room_id),
            final(self).rooms_unlocked == old(self).rooms_unlocked + if unlocks(
                old(self).rooms@,
                room_id,
            ) {
                1int
            } else {
                0int
            },
            final(self).doors@ == old(self).doors@,
            final(self).current_floor == old(self).current_floor,
    {
        let mut i: usize = 0;
        while i < self.rooms.len()
            invariant
                i <= self.rooms.len(),
                forall|j: int| 0 <= j < i ==> self.rooms@[j].id != room_id,
                self.rooms@ == old(self).rooms@,
                self.doors@ == old(self).doors@,
                self.rooms_unlocked == old(self).rooms_unlocked,
                self.current_floor == old(self).current_floor,
                unlocks(old(self).rooms@, room_id) ==> old(self).rooms_unlocked < usize::MAX,
            decreases self.rooms.len() - i,
        {
            if self.rooms[i].id == room_id {
                proof {
                    let c: int = first_room(self.rooms@, room_id);
                    assert(is_first_room(self.rooms@, room_id, i as int));
                    assert(is_first_room(self.rooms@, room_id, c));
                    if c < i {
                    } else if c > i {
                    }
                    assert(c == i);
                }
                if !self.rooms[i].unlocked {
                    let r = self.rooms[i];
                    self.rooms.set(i, Room { unlocked: true, ..r });
                    self.rooms_unlocked = self.rooms_unlocked + 1;
                }
                return;
            }
            i = i + 1;
        }
        assert(!has_room(old(self).rooms@, room_id));
    }

    /// Opens door `door_idx` and unlocks the room behind it; no effect when
    /// there is no such door.
    pub fn open_door(&mut self, door_idx: usize)
        requires
            door_idx < old(self).doors@.len() && unlocks(
                old(self).rooms@,
                old(self).doors@[door_idx as int].room_b,
            ) ==> old(self).rooms_unlocked < usize::MAX,
        ensures
            door_idx < old(self).doors@.len() ==> door_opened(*old(self), *final(self), door_idx as int),
            door_idx >= old(self).doors@.len() ==> unchanged(*old(self), *final(self)),
    {
        if door_idx < self.doors.len() {
            let d = self.doors[door_idx];
            self.doors.set(door_idx, Door { locked: false, open: true, ..d });
            let target: usize = d.room_b;
            self.unlock_room(target);
        }
    }
}

proof fn lemma_count_update(rooms: Seq<Room>, i: int, r: Room)
    requires
        0 <= i < rooms.len(),
    ensures
        count_unlocked(rooms.update(i, r)) + (if rooms[i].unlocked {
            1int
        } else {
            0int
        }) == count_unlocked(rooms) + (if r.unlocked {
            1int
        } else {
            0int
        }),
    decreases rooms.len(),
{
    if i == rooms.len() - 1 {
        assert(rooms.update(i, r).drop_last() =~= rooms.drop_last());
    } else {
        lemma_count_update(rooms.drop_last(), i, r);
        assert(rooms.update(i, r).drop_last() =~= rooms.drop_last().update(i, r));
    }
}

proof fn lemma_count_below_len(rooms: Seq<Room>, i: int)
    requires
        0 <= i < rooms.len(),
        !rooms[i].unlocked,
    ensures
        count_unlocked(rooms) < rooms.len(),
    decreases rooms.len(),
{
    lemma_count_at_most_len(rooms.drop_last());
    if i < rooms.len() - 1 {
        lemma_count_below_len(rooms.drop_last(), i);
    }
}

proof fn lemma_count_at_most_len(rooms: Seq<Room>)
    ensures
        count_unlocked(rooms) <= rooms.len(),
    decreases rooms.len(),
{
    if rooms.len() > 0 {
        lemma_count_at_most_len(rooms.drop_last());
    }
}

proof fn lemma_first_room_from(rooms: Seq<Room>, id: usize, k: int)
    requires
        0 <= k < rooms.len(),
        rooms[k].id == id,
    ensures
        exists|i: int| is_first_room(rooms, id, i),
    decreases k,
{
    if exists|j: int| 0 <= j < k && rooms[j].id == id {
        let j: int = choose|j: int| 0 <= j < k && rooms[j].id == id;
        lemma_first_room_from(rooms, id, j);
    } else {
        assert(is_first_room(rooms, id, k));
    }
}

proof fn lemma_first_room(rooms: Seq<Room>, id: usize)
    requires
        has_room(rooms, id),
    ensures
        is_first_room(rooms, id, first_room(rooms, id)),
{
    let k: int = choose|k: int| 0 <= k < rooms.len() && rooms[k].id == id;
    lemma_first_room_from(rooms, id, k);
}

/// Unlocking a room keeps the world well formed: the counter still counts
/// the unlocked rooms, ids stay distinct, and when a room is unlocked the
/// counter was below the number of rooms, so it cannot overflow.
pub proof fn unlock_room_keeps_count(w: World, room_id: usize)
    requires
        w.wf(),
    ensures
        distinct_ids(rooms_after_unlock(w.rooms@, room_id)),
        count_unlocked(rooms_after_unlock(w.rooms@, room_id)) == w.rooms_unlocked + if unlocks(
            w.rooms@,
            room_id,
        ) {
            1int
        } else {
            0int
        },
        unlocks(w.rooms@, room_id) ==> w.rooms_unlocked < w.rooms@.len(),
{
    if unlocks(w.rooms@, room_id) {
        lemma_first_room(w.rooms@, room_id);
        let i: int = first_room(w.rooms@, room_id);
        let r = Room { unlocked: true, ..w.rooms@[i] };
        lemma_count_update(w.rooms@, i, r);
        lemma_count_below_len(w.rooms@, i);
        let after = rooms_after_unlock(w.rooms@, room_id);
        assert forall|a: int, b: int|
            0 <= a < after.len() && 0 <= b < after.len() && a != b implies after[a].id
            != after[b].id by {
            assert(after[a].id == w.rooms@[a].id);
            assert(after[b].id == w.rooms@[b].id);
        }
    }
}

/// Opening a door keeps the world well formed (see `unlock_room_keeps_count`).
pub proof fn open_door_keeps_count(w: World, door_idx: usize)
    requires
        w.wf(),
        door_idx < w.doors@.len(),
    ensures
        ({
            let target: usize = w.doors@[door_idx as int].room_b;
            &&& distinct_ids(rooms_after_unlock(w.rooms@, target))
            &&& count_unlocked(rooms_after_unlock(w.rooms@, target)) == w.rooms_unlocked
                + if unlocks(w.rooms@, target) {
                1int
            } else {
                0int
            }
            &&& unlocks(w.rooms@, target) ==> w.rooms_unlocked < w.rooms@.len()
        }),
{
    unlock_room_keeps_count(w, w.doors@[door_idx as int].room_b);
}

/// Unlocking never locks a room, and keeps every room's id, name and floor.
pub proof fn unlock_room_is_monotone(rooms: Seq<Room>, room_id: usize)
    ensures
        rooms_after_unlock(rooms, room_id).len() == rooms.len(),
        forall|i: int|
            0 <= i < rooms.len() ==> {
                let after = #[trigger] rooms_after_unlock(rooms, room_id)[i];
                &&& rooms[i].unlocked ==> after.unlocked
                &&& after.id == rooms[i].id
                &&& after.name == rooms[i].name
                &&& after.floor == rooms[i].floor
            },
{
    if has_room(rooms, room_id) {
        lemma_first_room(rooms, room_id);
    }
}

/// After unlocking a room that exists, its first room is unlocked, and
/// unlocking it again changes nothing.
pub proof fn unlock_room_is_idempotent(rooms: Seq<Room>, room_id: usize)
    ensures
        has_room(rooms, room_id) ==> rooms_after_unlock(rooms, room_id)[first_room(
            rooms,
            room_id,
        )].unlocked,
        !unlocks(rooms_after_unlock(rooms, room_id), room_id),
        rooms_after_unlock(rooms_after_unlock(rooms, room_id), room_id) == rooms_after_unlock(
            rooms,
            room_id,
        ),
{
    let after = rooms_after_unlock(rooms, room_id);
    if has_room(rooms, room_id) {
        lemma_first_room(rooms, room_id);
        let i: int = first_room(rooms, room_id);
        assert(is_first_room(after, room_id, i));
        lemma_first_room(after, room_id);
        let k: int = first_room(after, room_id);
        if k < i {
        } else if k > i {
        }
        assert(k == i);
    }
}

/// Doors never close: opening a door leaves every open door open, and the
/// opened door is open and unlocked afterwards.
pub proof fn opened_doors_stay_open(before: World, after: World, door_idx: int)
    requires
        0 <= door_idx < before.doors@.len(),
        door_opened(before, after, door_idx),
    ensures
        after.doors@.len() == before.doors@.len(),
        forall|i: int|
            0 <= i < before.doors@.len() && (#[trigger] before.doors@[i]).open
                ==> after.doors@[i].open,
        after.doors@[door_idx].open && !after.doors@[door_idx].locked,
{
}

/// A new world has twelve rooms, room `i` having id `i`; rooms 0 to 6 are
/// on the ground floor and rooms 7 to 11 upstairs; only the main room is
/// unlocked. It has eleven doors, all closed, of which only the one from the
/// main room to the hall is unlocked.
pub proof fn new_world_layout()
    ensures
        initial_rooms().len() == 12,
        forall|i: int| 0 <= i < 12 ==> (#[trigger] initial_rooms()[i]).id == i,
        forall|i: int| 0 <= i <= 6 ==> (#[trigger] initial_rooms()[i]).floor == 1,
        forall|i: int| 7 <= i < 12 ==> (#[trigger] initial_rooms()[i]).floor == 2,
        forall|i: int| 0 <= i < 12 ==> ((#[trigger] initial_rooms()[i]).unlocked <==> i == 0),
        initial_doors().len() == 11,
        forall|i: int| 0 <= i < 11 ==> !(#[trigger] initial_doors()[i]).open,
        forall|i: int|
            0 <= i < 11 ==> (!(#[trigger] initial_doors()[i]).locked <==> (
            initial_doors()[i].room_a == ROOM_MAIN && initial_doors()[i].room_b == ROOM_HALL)),
        forall|i: int|
            0 <= i < 11 ==> (#[trigger] initial_doors()[i]).room_b != ROOM_MAIN
                && initial_doors()[i].room_a != initial_doors()[i].room_b,
{
}

/// One key per locked door: no two locked doors of a new world open with
/// the same key, and no door leads into the same room as another.
pub proof fn one_key_per_locked_door()
    ensures
        forall|i: int, j: int|
            0 <= i < j < 11 && (#[trigger] initial_doors()[i]).locked && (
            #[trigger] initial_doors()[j]).locked ==> initial_doors()[i].key_room_id
                != initial_doors()[j].key_room_id,
        forall|i: int, j: int|
            0 <= i < j < 11 ==> (#[trigger] initial_doors()[i]).room_b != (
            #[trigger] initial_doors()[j]).room_b,
{
}

/// Some door of a new world leads into room `id`.
pub open spec fn behind_a_door(id: usize) -> bool {
    exists|d: int| 0 <= d < initial_doors().len() && initial_doors()[d].room_b == id
}

/// Every room but the main room lies behind some door of a new world, so
/// opening doors can unlock every room of the hotel.
pub proof fn every_room_is_behind_a_door()
    ensures
        forall|i: int| 1 <= i < initial_rooms().len() ==> behind_a_door(#[trigger] initial_rooms()[i].id),
{
    let r = initial_rooms();
    let d = initial_doors();
    assert forall|i: int| 1 <= i < r.len() implies behind_a_door(#[trigger] r[i].id) by {
        let k: int = if i <= 6 {
            i - 1
        } else if i == 10 {
            6
        } else if i == 11 {
            10
        } else {
            i
        };
        assert(d[k].room_b == r[i].id);
    }
}

fn build_rooms() -> (r: Vec<Room>)
    ensures
        r@ == initial_rooms(),
{
    let r = vec![
        Room::new(ROOM_MAIN, "Main Room", 1),
        Room::new(ROOM_BATH, "Bathroom", 1),
        Room::new(ROOM_BED_A, "Bedroom", 1),
        Room::new(ROOM_BED_B, "Bedroom", 1),
        Room::new(ROOM_HALL, "Hall", 1),
        Room::new(ROOM_KITCHEN, "Kitchen", 1),
        Room::new(ROOM_DINING, "Dining Room", 1),
        Room::new(ROOM_F2_BATH, "Bathroom", 2),
        Room::new(ROOM_F2_BED_A, "Bedroom", 2),
        Room::new(ROOM_F2_BED_B, "Bedroom", 2),
        Room::new(ROOM_F2_HALL, "Upper Hall", 2),
        Room::new(ROOM_THE_ROOM, "The Room", 2),
    ];
    assert(r@ =~= initial_rooms());
    r
}

fn build_doors() -> (r: Vec<Door>)
    ensures
        r@ == initial_doors(),
{
    let r = vec![
        Door::new(ROOM_MAIN, ROOM_BATH, true, ROOM_HALL),
        Door::new(ROOM_MAIN, ROOM_BED_A, true, ROOM_BATH),
        Door::new(ROOM_MAIN, ROOM_BED_B, true, ROOM_BED_A),
        Door::new(ROOM_MAIN, ROOM_HALL, false, 0),
        Door::new(ROOM_HALL, ROOM_KITCHEN, true, ROOM_BED_B),
        Door::new(ROOM_HALL, ROOM_DINING, true, ROOM_KITCHEN),
        Door::new(ROOM_HALL, ROOM_F2_HALL, true, ROOM_DINING),
        Door::new(ROOM_F2_HALL, ROOM_F2_BATH, true, ROOM_F2_BED_B),
        Door::new(ROOM_F2_HALL, ROOM_F2_BED_A, true, ROOM_F2_BATH),
        Door::new(ROOM_F2_HALL, ROOM_F2_BED_B, true, ROOM_F2_BED_A),
        Door::new(ROOM_F2_HALL, ROOM_THE_ROOM, true, ROOM_F2_HALL),
    ];
    assert(r@ =~= initial_doors());
    r
}

} // verus!
