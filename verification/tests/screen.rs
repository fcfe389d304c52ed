use rustwii::screen::{apply_server_message, mouse_drives_first_pointer, slot_index, CursorCommand, PlayerSlotState};
use rustwii::types::{ButtonAction, OrientationData, OrientationSample, RealBits, RemoteButton, ServerMessage};

fn slots() -> [PlayerSlotState; 4] {
    [PlayerSlotState::default(), PlayerSlotState::default(), PlayerSlotState::default(), PlayerSlotState::default()]
}

#[test]
fn slots_of_player_numbers() {
    assert_eq!(slot_index(0), None);
    assert_eq!(slot_index(1), Some(0));
    assert_eq!(slot_index(4), Some(3));
    assert_eq!(slot_index(5), None);
}

#[test]
fn connect_and_disconnect() {
    let mut s = slots();
    assert!(mouse_drives_first_pointer(&s));
    let c = apply_server_message(&mut s, &ServerMessage::PlayerConnected { player_id: 1, total_players: 1 });
    assert_eq!(c, Some((0, CursorCommand::Activate)));
    assert!(s[0].connected);
    assert!(!mouse_drives_first_pointer(&s));
    let c = apply_server_message(&mut s, &ServerMessage::PlayerDisconnected { player_id: 1, total_players: 0 });
    assert_eq!(c, Some((0, CursorCommand::Deactivate)));
    assert!(!s[0].connected);
}

#[test]
fn out_of_range_players_change_nothing() {
    let mut s = slots();
    let before = s;
    assert_eq!(apply_server_message(&mut s, &ServerMessage::PlayerConnected { player_id: 5, total_players: 5 }), None);
    assert_eq!(apply_server_message(&mut s, &ServerMessage::PlayerConnected { player_id: 0, total_players: 5 }), None);
    assert_eq!(apply_server_message(&mut s, &ServerMessage::Pong), None);
    assert_eq!(s, before);
}

#[test]
fn samples_update_orientation_when_complete() {
    let mut s = slots();
    let partial = OrientationSample { alpha: Some(RealBits(1)), ..Default::default() };
    let c = apply_server_message(&mut s, &ServerMessage::PlayerSample { player_id: 2, sample: partial });
    assert_eq!(c, Some((1, CursorCommand::FeedSample(partial))));
    assert!(s[1].connected);
    assert_eq!(s[1].orientation, OrientationData::default());
    let full = OrientationSample { alpha: Some(RealBits(1)), beta: Some(RealBits(2)), gamma: Some(RealBits(3)), ..Default::default() };
    apply_server_message(&mut s, &ServerMessage::PlayerSample { player_id: 2, sample: full });
    assert_eq!(s[1].orientation, OrientationData { alpha: RealBits(1), beta: RealBits(2), gamma: RealBits(3) });
}

#[test]
fn motion_sets_orientation() {
    let mut s = slots();
    let o = OrientationData { alpha: RealBits(4), beta: RealBits(5), gamma: RealBits(6) };
    assert_eq!(
        apply_server_message(&mut s, &ServerMessage::PlayerMotion { player_id: 4, orientation: o }),
        Some((3, CursorCommand::FeedOrientation(o)))
    );
    assert_eq!(s[3].orientation, o);
    assert!(s[3].connected);
}

#[test]
fn buttons_become_pointer_commands() {
    let mut s = slots();
    let mut press = |b, a| apply_server_message(&mut s, &ServerMessage::PlayerButton { player_id: 3, button: b, action: a }).map(|x| x.1);
    assert_eq!(press(RemoteButton::A, ButtonAction::Press), Some(CursorCommand::Click(true)));
    assert_eq!(press(RemoteButton::A, ButtonAction::Release), Some(CursorCommand::Click(false)));
    assert_eq!(press(RemoteButton::B, ButtonAction::Press), Some(CursorCommand::Trigger(true)));
    assert_eq!(press(RemoteButton::One, ButtonAction::Press), Some(CursorCommand::Recentre));
    assert_eq!(press(RemoteButton::One, ButtonAction::Release), Some(CursorCommand::Keep));
    assert_eq!(press(RemoteButton::Plus, ButtonAction::Press), Some(CursorCommand::FasterPointer));
    assert_eq!(press(RemoteButton::Minus, ButtonAction::Press), Some(CursorCommand::SlowerPointer));
    assert_eq!(press(RemoteButton::Home, ButtonAction::Press), Some(CursorCommand::ShowMenu));
    assert_eq!(press(RemoteButton::DpadUp, ButtonAction::Press), Some(CursorCommand::Keep));
    assert_eq!(s[2].last_button, Some((RemoteButton::DpadUp, ButtonAction::Press)));
    assert!(s[2].connected);
}
