use vstd::prelude::*;

use crate::types::{ButtonAction, RemoteButton, ServerMessage};

verus! {

/// What a remote does when one of its buttons goes down.
#[derive(Debug, Clone, Copy, PartialEq, Eq, Structural)]
pub enum PressFeedback {
    /// `-`: slow the aim down, tap, and tell the server the new speed.
    SlowerAim,
    /// `+`: speed the aim up, tap, and tell the server the new speed.
    FasterAim,
    /// `1`: recentre the aim, with a medium pulse.
    Recentre,
    /// `A`: click sound and a tap.
    Click,
    /// `B`: a strong rumble.
    Rumble,
    /// Home: a medium pulse.
    Medium,
    /// Any other button: a tap.
    Tap,
}

/// The reaction to pressing `button`.
pub open spec fn press_reaction(button: RemoteButton) -> PressFeedback {
    match button {
        RemoteButton::Minus => PressFeedback::SlowerAim,
        RemoteButton::Plus => PressFeedback::FasterAim,
        RemoteButton::One => PressFeedback::Recentre,
        RemoteButton::A => PressFeedback::Click,
        RemoteButton::B => PressFeedback::Rumble,
        RemoteButton::Home => PressFeedback::Medium,
        _ => PressFeedback::Tap,
    }
}

/// The reaction to pressing `button`.
pub fn press_feedback(button: RemoteButton) -> (feedback: PressFeedback)
    ensures
        feedback == press_reaction(button),
{
    match button {
        RemoteButton::Minus => PressFeedback::SlowerAim,
        RemoteButton::Plus => PressFeedback::FasterAim,
        RemoteButton::One => PressFeedback::Recentre,
        RemoteButton::A => PressFeedback::Click,
        RemoteButton::B => PressFeedback::Rumble,
        RemoteButton::Home => PressFeedback::Medium,
        _ => PressFeedback::Tap,
    }
}

/// The name under which a button is shown.
pub open spec fn button_name(button: RemoteButton) -> Seq<char> {
    match button {
        RemoteButton::A => "A"@,
        RemoteButton::B => "B"@,
        RemoteButton::Home => "Home"@,
        RemoteButton::Plus => "Plus"@,
        RemoteButton::Minus => "Minus"@,
        RemoteButton::One => "One"@,
        RemoteButton::Two => "Two"@,
        RemoteButton::DpadUp => "DpadUp"@,
        RemoteButton::DpadDown => "DpadDown"@,
        RemoteButton::DpadLeft => "DpadLeft"@,
        RemoteButton::DpadRight => "DpadRight"@,
    }
}

/// The word shown for a press or a release.
pub open spec fn action_word(action: ButtonAction) -> Seq<char> {
    match action {
        ButtonAction::Press => "Pressionado"@,
        ButtonAction::Release => "Solto"@,
    }
}

fn name_of(button: RemoteButton) -> (name: &'static str)
    ensures
        name@ == button_name(button),
{
    match button {
        RemoteButton::A => "A",
        RemoteButton::B => "B",
        RemoteButton::Home => "Home",
        RemoteButton::Plus => "Plus",
        RemoteButton::Minus => "Minus",
        RemoteButton::One => "One",
        RemoteButton::Two => "Two",
        RemoteButton::DpadUp => "DpadUp",
        RemoteButton::DpadDown => "DpadDown",
        RemoteButton::DpadLeft => "DpadLeft",
        RemoteButton::DpadRight => "DpadRight",
    }
}

/// The "last action" line a remote shows for a button event, `name (word)`;
/// `None` for `-`, `+` and `1`, whose press shows its own text instead.
pub fn button_label(button: RemoteButton, action: ButtonAction) -> (label: Option<String>)
    ensures
        match button {
            RemoteButton::Minus | RemoteButton::Plus | RemoteButton::One => label is None,
            _ => label matches Some(text) && text@ == button_name(button) + " ("@ + action_word(action)
                + ")"@,
        },
{
    match button {
        RemoteButton::Minus | RemoteButton::Plus | RemoteButton::One => None,
        _ => {
            let word = match action {
                ButtonAction::Press => "Pressionado",
                ButtonAction::Release => "Solto",
            };
            let mut text = String::from_str(name_of(button));
            text.append(" (");
            text.append(word);
            text.append(")");
            Some(text)
        },
    }
}

/// How a remote reacts to a message of the server.
#[derive(Debug, Clone, PartialEq)]
pub enum RemoteReaction {
    /// The server gave this player number: show it, with a medium pulse.
    Joined(usize),
    /// A slice landed: rumble and swoosh.
    Slice,
    /// A bomb went off: rumble and thud.
    Bomb,
    /// The server refused the remote: show this text.
    Refused(String),
    /// Nothing to do.
    Ignore,
}

/// How a remote reacts to `message`: it learns its player number, plays
/// the feedback of slices and bombs, shows errors, and ignores the rest.
pub fn react_to(message: &ServerMessage) -> (reaction: RemoteReaction)
    ensures
        match *message {
            ServerMessage::RoomJoined { player_id, .. } => reaction == RemoteReaction::Joined(player_id),
            ServerMessage::Feedback { kind, .. } => if kind@ == "slice"@ {
                reaction is Slice
            } else if kind@ == "bomb"@ {
                reaction is Bomb
            } else {
                reaction is Ignore
            },
            ServerMessage::Error { message } => reaction matches RemoteReaction::Refused(text) && text@
                == message@,
            _ => reaction is Ignore,
        },
{
    match message {
        ServerMessage::RoomJoined { player_id, .. } => RemoteReaction::Joined(*player_id),
        ServerMessage::Feedback { kind, .. } => {
            if *kind == String::from_str("slice") {
                RemoteReaction::Slice
            } else if *kind == String::from_str("bomb") {
                RemoteReaction::Bomb
            } else {
                RemoteReaction::Ignore
            }
        },
        ServerMessage::Error { message } => RemoteReaction::Refused(message.clone()),
        _ => RemoteReaction::Ignore,
    }
}

} // verus!
