use game::world::{
    Door, DoorLook, Room, World, ROOM_BATH, ROOM_F2_HALL, ROOM_HALL, ROOM_MAIN, ROOM_THE_ROOM,
};

fn count_unlocked(w: &World) -> usize {
    w.rooms.iter().filter(|r| r.unlocked).count()
}

#[test]
fn new_world_layout() {
    let w = World::new();
    assert_eq!(w.rooms.len(), 12);
    assert_eq!(w.doors.len(), 11);
    assert_eq!(w.current_floor, 1);
    assert_eq!(w.rooms_unlocked, 1);
    assert_eq!(count_unlocked(&w), 1);
    assert!(w.rooms[0].unlocked);
    assert_eq!(w.rooms[0].name, "Main Room");
    assert_eq!(w.rooms[ROOM_THE_ROOM].name, "The Room");
    assert_eq!(w.rooms[ROOM_THE_ROOM].floor, 2);
    let ids: Vec<usize> = w.rooms.iter().map(|r| r.id).collect();
    assert_eq!(ids, (0..12).collect::<Vec<usize>>());
    assert!(w.doors.iter().all(|d| !d.open));
    let unlocked: Vec<usize> = (0..w.doors.len()).filter(|&i| !w.doors[i].locked).collect();
    assert_eq!(unlocked, vec![3]);
    assert_eq!(w.doors[3].room_b, ROOM_HALL);
    assert_eq!(w.doors[0].key_room_id, ROOM_HALL);
    assert_eq!(w.doors[10].room_b, ROOM_THE_ROOM);
    assert_eq!(w.doors[10].key_room_id, ROOM_F2_HALL);
}

#[test]
fn room_new_unlocks_only_main() {
    assert!(Room::new(ROOM_MAIN, "Main Room", 1).unlocked);
    assert!(!Room::new(ROOM_BATH, "Bathroom", 1).unlocked);
}

#[test]
fn door_new_is_closed() {
    let d = Door::new(1, 2, true, 3);
    assert_eq!((d.room_a, d.room_b, d.locked, d.key_room_id, d.open), (1, 2, true, 3, false));
}

#[test]
fn unlock_room_counts_once() {
    let mut w = World::new();
    w.unlock_room(ROOM_BATH);
    assert!(w.rooms[ROOM_BATH].unlocked);
    assert_eq!(w.rooms_unlocked, 2);
    w.unlock_room(ROOM_BATH);
    assert_eq!(w.rooms_unlocked, 2);
    w.unlock_room(ROOM_MAIN);
    assert_eq!(w.rooms_unlocked, 2);
    w.unlock_room(99);
    assert_eq!(w.rooms_unlocked, 2);
    assert_eq!(count_unlocked(&w), w.rooms_unlocked);
}

#[test]
fn open_door_unlocks_room_behind() {
    let mut w = World::new();
    w.open_door(0);
    assert!(w.doors[0].open);
    assert!(!w.doors[0].locked);
    assert!(w.rooms[ROOM_BATH].unlocked);
    assert_eq!(w.rooms_unlocked, 2);
    w.open_door(0);
    assert_eq!(w.rooms_unlocked, 2);
    w.open_door(50);
    assert_eq!(w.rooms_unlocked, 2);
    assert_eq!(count_unlocked(&w), 2);
}

#[test]
fn opening_every_door_unlocks_every_room() {
    let mut w = World::new();
    for i in 0..w.doors.len() {
        w.open_door(i);
        assert_eq!(count_unlocked(&w), w.rooms_unlocked);
    }
    assert_eq!(w.rooms_unlocked, 12);
    assert!(w.rooms.iter().all(|r| r.unlocked));
}

#[test]
fn door_looks() {
    let mut d = Door::new(0, 1, true, 4);
    assert_eq!(d.look(), DoorLook::Locked);
    d.locked = false;
    assert_eq!(d.look(), DoorLook::Closed);
    d.open = true;
    assert_eq!(d.look(), DoorLook::Open);
    d.locked = true;
    assert_eq!(d.look(), DoorLook::Open);
}
