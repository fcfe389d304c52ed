use vstd::prelude::*;

use crate::types::{
    ButtonAction, OrientationData, OrientationSample, RealBits, RemoteButton, ServerMessage,
};

verus! {

/// Number of player slots a screen shows.
pub const PLAYER_SLOTS: usize = 4;

/// What a screen knows about one player slot.
#[derive(Debug, Clone, Copy, PartialEq)]
pub struct PlayerSlotState {
    pub connected: bool,
    pub orientation: OrientationData,
    pub last_button: Option<(RemoteButton, ButtonAction)>,
}

impl Default for PlayerSlotState {
    /// An empty slot: not connected, zero orientation, no button seen.
    fn default() -> (slot: Self)
        ensures
            !slot.connected,
            slot.orientation == (OrientationData {
                alpha: RealBits(0),
                beta: RealBits(0),
                gamma: RealBits(0),
            }),
            slot.last_button is None,
    {
        PlayerSlotState {
            connected: false,
            orientation: OrientationData { alpha: RealBits(0), beta: RealBits(0), gamma: RealBits(0) },
            last_button: None,
        }
    }
}

/// The slot of player number `player_id` (players 1 to 4 use slots 0 to 3).
pub open spec fn slot_of(player_id: usize) -> Option<usize> {
    if 1 <= player_id <= PLAYER_SLOTS {
        Some((player_id - 1) as usize)
    } else {
        None
    }
}

/// The slot of player number `player_id`, if it has one.
pub fn slot_index(player_id: usize) -> (slot: Option<usize>)
    ensures
        slot == slot_of(player_id),
{
    if 1 <= player_id && player_id <= PLAYER_SLOTS {
        Some(player_id - 1)
    } else {
        None
    }
}

/// What a screen does to the pointer of a slot after a message.
#[derive(Debug, Clone, Copy, PartialEq)]
pub enum CursorCommand {
    /// The player joined: show the pointer and centre it.
    Activate,
    /// The player left: hide the pointer and release its buttons.
    Deactivate,
    /// Feed an orientation sample to the pointer.
    FeedSample(OrientationSample),
    /// Feed plain Euler angles to the pointer.
    FeedOrientation(OrientationData),
    /// Button A went down (`true`) or up (`false`).
    Click(bool),
    /// Button B went down (`true`) or up (`false`).
    Trigger(bool),
    /// Put the pointer back in the middle of the screen.
    Recentre,
    /// Make the pointer faster.
    FasterPointer,
    /// Make the pointer slower.
    SlowerPointer,
    /// Go back to the channel menu.
    ShowMenu,
    /// Leave the pointer as it is.
    Keep,
}

/// The pointer command that a button event of a player gives.
pub open spec fn button_command(button: RemoteButton, action: ButtonAction) -> CursorCommand {
    let pressed = action == ButtonAction::Press;
    match button {
        RemoteButton::A => CursorCommand::Click(pressed),
        RemoteButton::B => CursorCommand::Trigger(pressed),
        RemoteButton::One => if pressed { CursorCommand::Recentre } else { CursorCommand::Keep },
        RemoteButton::Plus => if pressed { CursorCommand::FasterPointer } else { CursorCommand::Keep },
        RemoteButton::Minus => if pressed { CursorCommand::SlowerPointer } else { CursorCommand::Keep },
        RemoteButton::Home => if pressed { CursorCommand::ShowMenu } else { CursorCommand::Keep },
        _ => CursorCommand::Keep,
    }
}

/// The orientation a sample gives, when it carries all three Euler angles.
pub open spec fn sample_angles(sample: OrientationSample) -> Option<OrientationData> {
    match (sample.alpha, sample.beta, sample.gamma) {
        (Some(alpha), Some(beta), Some(gamma)) => Some(OrientationData { alpha, beta, gamma }),
        _ => None,
    }
}

/// The slots after a message, and the command for the pointer of the slot
/// it concerns (`None` when the message concerns no slot).
pub open spec fn screen_update(slots: Seq<PlayerSlotState>, message: ServerMessage) -> (
    Seq<PlayerSlotState>,
    Option<(usize, CursorCommand)>,
) {
    match message {
        ServerMessage::PlayerConnected { player_id, .. } => match slot_of(player_id) {
            Some(i) => (
                slots.update(i as int, PlayerSlotState { connected: true, ..slots[i as int] }),
                Some((i, CursorCommand::Activate)),
            ),
            None => (slots, None),
        },
        ServerMessage::PlayerDisconnected { player_id, .. } => match slot_of(player_id) {
            Some(i) => (
                slots.update(i as int, PlayerSlotState { connected: false, ..slots[i as int] }),
                Some((i, CursorCommand::Deactivate)),
            ),
            None => (slots, None),
        },
        ServerMessage::PlayerSample { player_id, sample } => match slot_of(player_id) {
            Some(i) => (
                slots.update(
                    i as int,
                    PlayerSlotState {
                        connected: true,
                        orientation: match sample_angles(sample) {
                            Some(o) => o,
                            None => slots[i as int].orientation,
                        },
                        ..slots[i as int]
                    },
                ),
                Some((i, CursorCommand::FeedSample(sample))),
            ),
            None => (slots, None),
        },
        ServerMessage::PlayerMotion { player_id, orientation } => match slot_of(player_id) {
            Some(i) => (
                slots.update(
                    i as int,
                    PlayerSlotState { connected: true, orientation, ..slots[i as int] },
                ),
                Some((i, CursorCommand::FeedOrientation(orientation))),
            ),
            None => (slots, None),
        },
        ServerMessage::PlayerButton { player_id, button, action } => match slot_of(player_id) {
            Some(i) => (
                slots.update(
                    i as int,
                    PlayerSlotState {
                        connected: true,
                        last_button: Some((button, action)),
                        ..slots[i as int]
                    },
                ),
                Some((i, button_command(button, action))),
            ),
            None => (slots, None),
        },
        _ => (slots, None),
    }
}

/// Applies a message from the room to a screen's player slots and says
/// what to do to the pointer of the slot it concerns. Messages about
/// player numbers outside 1 to 4, and messages about no player, change
/// nothing.
pub fn apply_server_message(
    slots: &mut [PlayerSlotState; PLAYER_SLOTS],
    message: &ServerMessage,
) -> (command: Option<(usize, CursorCommand)>)
    ensures
        (final(slots)@, command) == screen_update(old(slots)@, *message),
{
    match message {
        ServerMessage::PlayerConnected { player_id, .. } => match slot_index(*player_id) {
            Some(i) => {
                slots[i].connected = true;
                Some((i, CursorCommand::Activate))
            },
            None => None,
        },
        ServerMessage::PlayerDisconnected { player_id, .. } => match slot_index(*player_id) {
            Some(i) => {
                slots[i].connected = false;
                Some((i, CursorCommand::Deactivate))
            },
            None => None,
        },
        ServerMessage::PlayerSample { player_id, sample } => match slot_index(*player_id) {
            Some(i) => {
                slots[i].connected = true;
                if let (Some(alpha), Some(beta), Some(gamma)) = (sample.alpha, sample.beta, sample.gamma) {
                    slots[i].orientation = OrientationData { alpha, beta, gamma };
                }
                Some((i, CursorCommand::FeedSample(*sample)))
            },
            None => None,
        },
        ServerMessage::PlayerMotion { player_id, orientation } => match slot_index(*player_id) {
            Some(i) => {
                slots[i].connected = true;
                slots[i].orientation = *orientation;
                Some((i, CursorCommand::FeedOrientation(*orientation)))
            },
            None => None,
        },
        ServerMessage::PlayerButton { player_id, button, action } => match slot_index(*player_id) {
            Some(i) => {
                let pressed = match action {
                    ButtonAction::Press => true,
                    ButtonAction::Release => false,
                };
                slots[i].connected = true;
                slots[i].last_button = Some((*button, *action));
                let command = match button {
                    RemoteButton::A => CursorCommand::Click(pressed),
                    RemoteButton::B => CursorCommand::Trigger(pressed),
                    RemoteButton::One => if pressed { CursorCommand::Recentre } else { CursorCommand::Keep },
                    RemoteButton::Plus => if pressed { CursorCommand::FasterPointer } else { CursorCommand::Keep },
                    RemoteButton::Minus => if pressed { CursorCommand::SlowerPointer } else { CursorCommand::Keep },
                    RemoteButton::Home => if pressed { CursorCommand::ShowMenu } else { CursorCommand::Keep },
                    _ => CursorCommand::Keep,
                };
                Some((i, command))
            },
            None => None,
        },
        _ => None,
    }
}

/// Whether the mouse drives the first pointer: only while no phone holds
/// the first slot.
pub fn mouse_drives_first_pointer(slots: &[PlayerSlotState; PLAYER_SLOTS]) -> (drives: bool)
    ensures
        drives == !slots@[0].connected,
{
    !slots[0].connected
}

/// Law: a message changes at most one slot, the slot of the player it
/// names (one of the four); every other slot stays as it was, and a message
/// that names no valid player changes nothing.
pub proof fn only_the_named_slot_changes(slots: Seq<PlayerSlotState>, message: ServerMessage, j: int)
    requires
        slots.len() == PLAYER_SLOTS,
        0 <= j < PLAYER_SLOTS,
    ensures
        screen_update(slots, message).0.len() == PLAYER_SLOTS,
        match screen_update(slots, message).1 {
            Some((i, _)) => i < PLAYER_SLOTS && (j != i ==> screen_update(slots, message).0[j] == slots[j]),
            None => screen_update(slots, message).0 == slots,
        },
{
}

/// Law: the A and B buttons hold the pointer's click and trigger exactly
/// while they are down: a press of player `player_id` (1 to 4) gives
/// `Click(true)` / `Trigger(true)` for that player's slot, a release gives
/// `Click(false)` / `Trigger(false)`, and the slot records the event.
pub proof fn a_and_b_follow_the_button(
    slots: Seq<PlayerSlotState>,
    player_id: usize,
    action: ButtonAction,
)
    requires
        slots.len() == PLAYER_SLOTS,
        1 <= player_id <= 4,
    ensures
        screen_update(slots, ServerMessage::PlayerButton { player_id, button: RemoteButton::A, action }).1
            == Some(((player_id - 1) as usize, CursorCommand::Click(action is Press))),
        screen_update(slots, ServerMessage::PlayerButton { player_id, button: RemoteButton::B, action }).1
            == Some(((player_id - 1) as usize, CursorCommand::Trigger(action is Press))),
        screen_update(slots, ServerMessage::PlayerButton { player_id, button: RemoteButton::B, action }).0[player_id - 1]
            == (PlayerSlotState {
                connected: true,
                orientation: slots[player_id - 1].orientation,
                last_button: Some((RemoteButton::B, action)),
            }),
{
}

} // verus!
