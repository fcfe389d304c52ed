use rustwii::remote::{button_label, press_feedback, react_to, PressFeedback, RemoteReaction};
use rustwii::types::{ButtonAction, RemoteButton, ServerMessage};

#[test]
fn press_reactions() {
    assert_eq!(press_feedback(RemoteButton::Minus), PressFeedback::SlowerAim);
    assert_eq!(press_feedback(RemoteButton::Plus), PressFeedback::FasterAim);
    assert_eq!(press_feedback(RemoteButton::One), PressFeedback::Recentre);
    assert_eq!(press_feedback(RemoteButton::A), PressFeedback::Click);
    assert_eq!(press_feedback(RemoteButton::B), PressFeedback::Rumble);
    assert_eq!(press_feedback(RemoteButton::Home), PressFeedback::Medium);
    assert_eq!(press_feedback(RemoteButton::Two), PressFeedback::Tap);
    assert_eq!(press_feedback(RemoteButton::DpadLeft), PressFeedback::Tap);
}

#[test]
fn labels_follow_debug_names() {
    assert_eq!(button_label(RemoteButton::A, ButtonAction::Press).as_deref(), Some("A (Pressionado)"));
    assert_eq!(button_label(RemoteButton::DpadRight, ButtonAction::Release).as_deref(), Some("DpadRight (Solto)"));
    for b in [RemoteButton::A, RemoteButton::B, RemoteButton::Home, RemoteButton::Two, RemoteButton::DpadUp, RemoteButton::DpadDown, RemoteButton::DpadLeft] {
        assert_eq!(button_label(b, ButtonAction::Press), Some(format!("{:?} (Pressionado)", b)));
    }
    assert_eq!(button_label(RemoteButton::Minus, ButtonAction::Press), None);
    assert_eq!(button_label(RemoteButton::Plus, ButtonAction::Release), None);
    assert_eq!(button_label(RemoteButton::One, ButtonAction::Press), None);
}

#[test]
fn reactions_to_server_messages() {
    assert_eq!(react_to(&ServerMessage::RoomJoined { player_id: 2, room_id: "R".to_string() }), RemoteReaction::Joined(2));
    assert_eq!(react_to(&ServerMessage::Feedback { kind: "slice".to_string(), combo: 0 }), RemoteReaction::Slice);
    assert_eq!(react_to(&ServerMessage::Feedback { kind: "bomb".to_string(), combo: 0 }), RemoteReaction::Bomb);
    assert_eq!(react_to(&ServerMessage::Feedback { kind: "other".to_string(), combo: 0 }), RemoteReaction::Ignore);
    assert_eq!(react_to(&ServerMessage::Error { message: "cheia".to_string() }), RemoteReaction::Refused("cheia".to_string()));
    assert_eq!(react_to(&ServerMessage::Pong), RemoteReaction::Ignore);
}
