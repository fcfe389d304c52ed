use vstd::prelude::*;

use crate::types::{ClientMessage, ServerMessage};

verus! {

/// Query string of a WebSocket upgrade request (`?role=...`).
#[derive(Debug)]
pub struct WsQuery {
    pub role: Option<String>,
}

/// Which side of a room a WebSocket connection plays.
#[derive(Debug, Clone, Copy, PartialEq, Eq, Structural)]
pub enum SessionRole {
    /// A phone acting as a Wii Remote.
    Remote,
    /// A display showing the room (the default).
    Screen,
}

/// A connection is a remote exactly when it asks for the role `remote`.
pub open spec fn requests_remote(query: WsQuery) -> bool {
    match query.role {
        Some(role) => role@ == "remote"@,
        None => false,
    }
}

/// The role of a new connection: `remote` when the query asks for it, a
/// screen otherwise (also when no role is given).
pub fn session_role(query: &WsQuery) -> (role: SessionRole)
    ensures
        role == (if requests_remote(*query) { SessionRole::Remote } else { SessionRole::Screen }),
{
    match &query.role {
        Some(role) => {
            if *role == String::from_str("remote") {
                SessionRole::Remote
            } else {
                SessionRole::Screen
            }
        },
        None => SessionRole::Screen,
    }
}

/// What a connection's socket delivered next.
#[derive(Debug)]
pub enum SocketEvent {
    /// A text frame, with the client message it holds, or `None` when it
    /// does not hold one.
    Text(Option<ClientMessage>),
    /// The peer closed the connection.
    Close,
    /// Any other frame (binary, ping, pong).
    Other,
}

/// What the server does with an event of a remote's socket.
#[derive(Debug)]
pub enum RemoteAction {
    /// Send this message to everyone in the room.
    Broadcast(ServerMessage),
    /// Do nothing and keep reading.
    Ignore,
    /// Stop serving this remote.
    Stop,
}

/// The text sent to a remote that finds its room full.
pub open spec fn room_full_text() -> Seq<char> {
    "Sala cheia (máximo de 4 jogadores)"@
}

/// What the server does with `event` of the socket of player `player_id`:
/// samples, motion packets and buttons go to the room tagged with the
/// player number, a ping is answered by a `Pong` to the room, a close ends
/// the session, and everything else is ignored.
pub open spec fn remote_action(player_id: usize, event: SocketEvent) -> RemoteAction {
    match event {
        SocketEvent::Text(Some(ClientMessage::Sample(sample))) => RemoteAction::Broadcast(
            ServerMessage::PlayerSample { player_id, sample },
        ),
        SocketEvent::Text(Some(ClientMessage::Motion(orientation))) => RemoteAction::Broadcast(
            ServerMessage::PlayerMotion { player_id, orientation },
        ),
        SocketEvent::Text(Some(ClientMessage::Button { button, action })) => RemoteAction::Broadcast(
            ServerMessage::PlayerButton { player_id, button, action },
        ),
        SocketEvent::Text(Some(ClientMessage::Ping)) => RemoteAction::Broadcast(ServerMessage::Pong),
        SocketEvent::Close => RemoteAction::Stop,
        _ => RemoteAction::Ignore,
    }
}

/// `message` speaks for player `player_id`.
pub open spec fn speaks_for(message: ServerMessage, player_id: usize) -> bool {
    match message {
        ServerMessage::PlayerSample { player_id: p, .. } => p == player_id,
        ServerMessage::PlayerMotion { player_id: p, .. } => p == player_id,
        ServerMessage::PlayerButton { player_id: p, .. } => p == player_id,
        _ => false,
    }
}

/// Law: whatever a remote sends, what the server relays to the room is
/// either a `Pong` or a message that speaks for that remote's own player
/// number; a remote cannot speak for another player.
pub proof fn relays_speak_for_their_player(player_id: usize, event: SocketEvent)
    ensures
        remote_action(player_id, event) matches RemoteAction::Broadcast(message) ==> message is Pong
            || speaks_for(message, player_id),
{
}

/// The server side of one remote's connection.
#[derive(Debug, Clone)]
pub struct RemoteSession {
    pub room_id: String,
    pub player_id: usize,
}

impl RemoteSession {
    /// Seats a remote to room `room_id` given the seat the room gave it:
    /// `(player number, players now in the room)`, or `None` when the room
    /// is full. On success returns the session, the reply for the remote
    /// (`RoomJoined`) and the notice for the room (`PlayerConnected`); when
    /// the room is full returns the `Error` reply for the remote.
    pub fn seat(room_id: &str, seat: Option<(usize, usize)>) -> (admitted: Result<
        (RemoteSession, ServerMessage, ServerMessage),
        ServerMessage,
    >)
        ensures
            match seat {
                None => admitted matches Err(ServerMessage::Error { message })
                    && message@ == room_full_text(),
                Some((player_id, total)) => admitted matches Ok((
                    session,
                    ServerMessage::RoomJoined { player_id: joined_id, room_id: joined_room },
                    ServerMessage::PlayerConnected { player_id: connected_id, total_players },
                )) && session.player_id == player_id && session.room_id@ == room_id@
                    && joined_id == player_id && joined_room@ == room_id@
                    && connected_id == player_id && total_players == total,
            },
    {
        match seat {
            None => {
                let message = String::from_str("Sala cheia (máximo de 4 jogadores)");
                proof {
                    reveal_strlit("Sala cheia (máximo de 4 jogadores)");
                }
                Err(ServerMessage::Error { message })
            },
            Some((player_id, total)) => {
                let session = RemoteSession { room_id: String::from_str(room_id), player_id };
                let joined = ServerMessage::RoomJoined {
                    player_id,
                    room_id: String::from_str(room_id),
                };
                let connected = ServerMessage::PlayerConnected { player_id, total_players: total };
                Ok((session, joined, connected))
            },
        }
    }

    /// What to do with the next event of this remote's socket: samples,
    /// motion packets and buttons are relayed to the room tagged with the
    /// player number, a ping is answered by a `Pong` to the room, a close
    /// ends the session, and everything else is ignored.
    pub fn on_event(&self, event: SocketEvent) -> (action: RemoteAction)
        ensures
            action == remote_action(self.player_id, event),
    {
        match event {
            SocketEvent::Text(Some(message)) => match message {
                ClientMessage::Sample(sample) => RemoteAction::Broadcast(
                    ServerMessage::PlayerSample { player_id: self.player_id, sample },
                ),
                ClientMessage::Motion(orientation) => RemoteAction::Broadcast(
                    ServerMessage::PlayerMotion { player_id: self.player_id, orientation },
                ),
                ClientMessage::Button { button, action } => RemoteAction::Broadcast(
                    ServerMessage::PlayerButton { player_id: self.player_id, button, action },
                ),
                ClientMessage::Ping => RemoteAction::Broadcast(ServerMessage::Pong),
                _ => RemoteAction::Ignore,
            },
            SocketEvent::Text(None) => RemoteAction::Ignore,
            SocketEvent::Close => RemoteAction::Stop,
            SocketEvent::Other => RemoteAction::Ignore,
        }
    }

    /// Whether a message of the room is passed on to this remote: only
    /// pongs and game feedback are.
    pub fn forwards(&self, message: &ServerMessage) -> (forwarded: bool)
        ensures
            forwarded == (message is Pong || message is Feedback),
    {
        match message {
            ServerMessage::Pong => true,
            ServerMessage::Feedback { .. } => true,
            _ => false,
        }
    }

    /// The notice sent to the room when this remote leaves, with the number
    /// of players that remain.
    pub fn farewell(&self, remaining: usize) -> (notice: ServerMessage)
        ensures
            notice == (ServerMessage::PlayerDisconnected {
                player_id: self.player_id,
                total_players: remaining,
            }),
    {
        ServerMessage::PlayerDisconnected { player_id: self.player_id, total_players: remaining }
    }
}

/// Whether a screen's connection stays open after an event of its socket:
/// a screen only sends a close, everything else it sends is ignored.
pub fn screen_keeps_listening(event: &SocketEvent) -> (listening: bool)
    ensures
        listening == !(event is Close),
{
    match event {
        SocketEvent::Close => false,
        _ => true,
    }
}

/// Law: a remote's samples, motion packets and buttons reach the room
/// exactly as sent, every field unchanged, tagged with the remote's own
/// player number; a ping is answered by a `Pong`.
pub proof fn relays_carry_what_was_sent(player_id: usize, message: ClientMessage)
    ensures
        message matches ClientMessage::Sample(sample) ==> remote_action(
            player_id,
            SocketEvent::Text(Some(message)),
        ) matches RemoteAction::Broadcast(ServerMessage::PlayerSample { player_id: p, sample: relayed })
            && p == player_id && relayed == sample,
        message matches ClientMessage::Motion(orientation) ==> remote_action(
            player_id,
            SocketEvent::Text(Some(message)),
        ) matches RemoteAction::Broadcast(ServerMessage::PlayerMotion { player_id: p, orientation: relayed })
            && p == player_id && relayed == orientation,
        message matches ClientMessage::Button { button, action } ==> remote_action(
            player_id,
            SocketEvent::Text(Some(message)),
        ) matches RemoteAction::Broadcast(ServerMessage::PlayerButton { player_id: p, button: b, action: a })
            && p == player_id && b == button && a == action,
        message is Ping ==> remote_action(player_id, SocketEvent::Text(Some(message)))
            matches RemoteAction::Broadcast(ServerMessage::Pong),
{
}

} // verus!
