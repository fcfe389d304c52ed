use rustwii::room::{RoomManager, MAX_PLAYERS};
use rustwii::types::ServerMessage;

#[test]
fn test_room_player_allocation() {
    let mut manager = RoomManager::new();
    let room_id = "TEST-ROOM";

    let (p1, _tx, _, count1) = manager.join_as_remote(room_id).unwrap();
    assert_eq!(p1, 1);
    assert_eq!(count1, 1);

    let (p2, _, _, count2) = manager.join_as_remote(room_id).unwrap();
    assert_eq!(p2, 2);
    assert_eq!(count2, 2);

    let (p3, _, _, count3) = manager.join_as_remote(room_id).unwrap();
    assert_eq!(p3, 3);
    assert_eq!(count3, 3);

    let (p4, _, _, count4) = manager.join_as_remote(room_id).unwrap();
    assert_eq!(p4, 4);
    assert_eq!(count4, 4);

    // 5th player should fail as maximum is 4
    assert!(manager.join_as_remote(room_id).is_none());

    // Leave p2 and allocate again -> should reuse p2 ID
    let remaining = manager.leave(room_id, 2);
    assert_eq!(remaining, 3);

    let (reassigned_p2, _, _, new_count) = manager.join_as_remote(room_id).unwrap();
    assert_eq!(reassigned_p2, 2);
    assert_eq!(new_count, 4);
}

#[test]
fn rooms_are_independent() {
    let mut manager = RoomManager::new();
    let (a, _, _, _) = manager.join_as_remote("A").unwrap();
    let (b, _, _, count_b) = manager.join_as_remote("B").unwrap();
    assert_eq!(a, 1);
    assert_eq!(b, 1);
    assert_eq!(count_b, 1);
}

#[test]
fn screen_join_counts_players_without_taking_a_slot() {
    let mut manager = RoomManager::new();
    let (_rx, _tx, before) = manager.join_as_screen("ROOM");
    assert_eq!(before, 0);
    manager.join_as_remote("ROOM").unwrap();
    let (_rx2, _tx2, after) = manager.join_as_screen("ROOM");
    assert_eq!(after, 1);
    let (next, _, _, total) = manager.join_as_remote("ROOM").unwrap();
    assert_eq!(next, 2);
    assert_eq!(total, 2);
}

#[test]
fn leaving_an_unknown_room_reports_no_players() {
    let mut manager = RoomManager::new();
    assert_eq!(manager.leave("NOWHERE", 1), 0);
}

#[test]
fn leaving_with_a_number_not_in_use_changes_nothing() {
    let mut manager = RoomManager::new();
    manager.join_as_remote("R").unwrap();
    assert_eq!(manager.leave("R", 3), 1);
    let (next, _, _, total) = manager.join_as_remote("R").unwrap();
    assert_eq!(next, 2);
    assert_eq!(total, 2);
}

#[test]
fn lowest_free_number_is_taken_first() {
    let mut manager = RoomManager::new();
    for _ in 0..MAX_PLAYERS {
        manager.join_as_remote("R").unwrap();
    }
    assert_eq!(manager.leave("R", 3), 3);
    assert_eq!(manager.leave("R", 1), 2);
    let (first, _, _, _) = manager.join_as_remote("R").unwrap();
    let (second, _, _, total) = manager.join_as_remote("R").unwrap();
    assert_eq!(first, 1);
    assert_eq!(second, 3);
    assert_eq!(total, 4);
}

#[test]
fn empty_room_without_listeners_is_dropped() {
    let mut manager = RoomManager::new();
    manager.join_as_remote("R").unwrap();
    // no receiver is kept by this test, so no one listens any more
    assert_eq!(manager.release_player("R", 1, 0), 0);
    // the room is gone: leaving again finds nothing
    assert_eq!(manager.release_player("R", 1, 0), 0);
    let (id, _, _, total) = manager.join_as_remote("R").unwrap();
    assert_eq!(id, 1);
    assert_eq!(total, 1);
}

#[test]
fn empty_room_with_listeners_is_kept() {
    let mut manager = RoomManager::new();
    let (_id, _tx, _rx, _) = manager.join_as_remote("R").unwrap();
    assert_eq!(manager.release_player("R", 1, 1), 0);
    let (_screen_rx, _screen_tx, count) = manager.join_as_screen("R");
    assert_eq!(count, 0);
}

#[test]
fn leave_keeps_a_room_whose_channel_is_still_heard() {
    let mut manager = RoomManager::new();
    let (_id, _tx, rx, _) = manager.join_as_remote("R").unwrap();
    assert_eq!(manager.leave("R", 1), 0);
    drop(rx);
    let (id, _, _, total) = manager.join_as_remote("R").unwrap();
    assert_eq!(id, 1);
    assert_eq!(total, 1);
}

#[test]
fn members_of_a_room_share_its_channel() {
    let mut manager = RoomManager::new();
    let (mut screen_rx, screen_tx, _) = manager.join_as_screen("SHARED");
    let (_, remote_tx, mut remote_rx, _) = manager.join_as_remote("SHARED").unwrap();
    let (_, _, mut other_rx, _) = manager.join_as_remote("OTHER").unwrap();

    remote_tx.send(ServerMessage::Pong).unwrap();
    assert_eq!(screen_rx.try_recv().unwrap(), ServerMessage::Pong);
    assert_eq!(remote_rx.try_recv().unwrap(), ServerMessage::Pong);

    screen_tx.send(ServerMessage::Feedback { kind: "slice".to_string(), combo: 2 }).unwrap();
    assert_eq!(remote_rx.try_recv().unwrap(), ServerMessage::Feedback { kind: "slice".to_string(), combo: 2 });
    assert!(other_rx.try_recv().is_err());
}
