use rustwii::session::{screen_keeps_listening, session_role, RemoteAction, RemoteSession, SessionRole, SocketEvent, WsQuery};
use rustwii::types::{ButtonAction, ClientMessage, OrientationData, OrientationSample, RealBits, RemoteButton, ServerMessage};

fn session() -> RemoteSession {
    match RemoteSession::seat("ROOM", Some((3, 2))) {
        Ok((session, _, _)) => session,
        Err(_) => panic!("seat refused"),
    }
}

#[test]
fn role_defaults_to_screen() {
    assert_eq!(session_role(&WsQuery { role: None }), SessionRole::Screen);
    assert_eq!(session_role(&WsQuery { role: Some("remote".to_string()) }), SessionRole::Remote);
    assert_eq!(session_role(&WsQuery { role: Some("screen".to_string()) }), SessionRole::Screen);
    assert_eq!(session_role(&WsQuery { role: Some("Remote".to_string()) }), SessionRole::Screen);
}

#[test]
fn full_room_is_answered_with_an_error() {
    match RemoteSession::seat("ROOM", None) {
        Err(ServerMessage::Error { message }) => {
            assert_eq!(message, "Sala cheia (máximo de 4 jogadores)")
        }
        other => panic!("unexpected {:?}", other),
    }
}

#[test]
fn seated_remote_is_told_its_number_and_announced() {
    match RemoteSession::seat("ROOM", Some((3, 2))) {
        Ok((session, joined, connected)) => {
            assert_eq!(session.player_id, 3);
            assert_eq!(session.room_id, "ROOM");
            assert_eq!(joined, ServerMessage::RoomJoined { player_id: 3, room_id: "ROOM".to_string() });
            assert_eq!(connected, ServerMessage::PlayerConnected { player_id: 3, total_players: 2 });
        }
        Err(e) => panic!("unexpected {:?}", e),
    }
}

#[test]
fn remote_events_are_relayed_with_the_player_number() {
    let s = session();
    let sample = OrientationSample { alpha: Some(RealBits(7)), t: RealBits(99), ..Default::default() };
    match s.on_event(SocketEvent::Text(Some(ClientMessage::Sample(sample)))) {
        RemoteAction::Broadcast(m) => assert_eq!(m, ServerMessage::PlayerSample { player_id: 3, sample }),
        other => panic!("unexpected {:?}", other),
    }
    let o = OrientationData { alpha: RealBits(1), beta: RealBits(2), gamma: RealBits(3) };
    match s.on_event(SocketEvent::Text(Some(ClientMessage::Motion(o)))) {
        RemoteAction::Broadcast(m) => assert_eq!(m, ServerMessage::PlayerMotion { player_id: 3, orientation: o }),
        other => panic!("unexpected {:?}", other),
    }
    let b = ClientMessage::Button { button: RemoteButton::B, action: ButtonAction::Release };
    match s.on_event(SocketEvent::Text(Some(b))) {
        RemoteAction::Broadcast(m) => assert_eq!(
            m,
            ServerMessage::PlayerButton { player_id: 3, button: RemoteButton::B, action: ButtonAction::Release }
        ),
        other => panic!("unexpected {:?}", other),
    }
    match s.on_event(SocketEvent::Text(Some(ClientMessage::Ping))) {
        RemoteAction::Broadcast(m) => assert_eq!(m, ServerMessage::Pong),
        other => panic!("unexpected {:?}", other),
    }
}

#[test]
fn other_remote_events_are_ignored_and_close_stops() {
    let s = session();
    assert!(matches!(s.on_event(SocketEvent::Text(Some(ClientMessage::CalibrateCenter))), RemoteAction::Ignore));
    assert!(matches!(s.on_event(SocketEvent::Text(Some(ClientMessage::Speed { factor: RealBits(0) }))), RemoteAction::Ignore));
    assert!(matches!(
        s.on_event(SocketEvent::Text(Some(ClientMessage::JoinRoom { room_id: "X".to_string(), player_name: None }))),
        RemoteAction::Ignore
    ));
    assert!(matches!(s.on_event(SocketEvent::Text(None)), RemoteAction::Ignore));
    assert!(matches!(s.on_event(SocketEvent::Other), RemoteAction::Ignore));
    assert!(matches!(s.on_event(SocketEvent::Close), RemoteAction::Stop));
}

#[test]
fn remotes_only_hear_pongs_and_feedback() {
    let s = session();
    assert!(s.forwards(&ServerMessage::Pong));
    assert!(s.forwards(&ServerMessage::Feedback { kind: "slice".to_string(), combo: 2 }));
    assert!(!s.forwards(&ServerMessage::PlayerConnected { player_id: 1, total_players: 1 }));
    assert!(!s.forwards(&ServerMessage::Error { message: "x".to_string() }));
}

#[test]
fn farewell_reports_remaining_players() {
    let s = session();
    assert_eq!(s.farewell(1), ServerMessage::PlayerDisconnected { player_id: 3, total_players: 1 });
}

#[test]
fn screens_stop_only_on_close() {
    assert!(!screen_keeps_listening(&SocketEvent::Close));
    assert!(screen_keeps_listening(&SocketEvent::Other));
    assert!(screen_keeps_listening(&SocketEvent::Text(Some(ClientMessage::Ping))));
}
