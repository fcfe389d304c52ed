use vstd::prelude::*;

verus! {

/// A real number carried through the library untouched, stored as the
/// IEEE-754 binary64 bit pattern that the sender produced.
///
/// Nothing in the library computes with these values: they are only moved
/// from one message to another, so their bit patterns are preserved exactly.
#[derive(Debug, Clone, Copy, PartialEq, Eq, Structural, Default)]
pub struct RealBits(pub u64);

/// Wii Remote button identities.
#[derive(Debug, Clone, Copy, PartialEq, Eq, Structural)]
pub enum RemoteButton {
    A,
    B,
    Home,
    Plus,
    Minus,
    One,
    Two,
    DpadUp,
    DpadDown,
    DpadLeft,
    DpadRight,
}

/// Whether a button went down or came back up.
#[derive(Debug, Clone, Copy, PartialEq, Eq, Structural)]
pub enum ButtonAction {
    Press,
    Release,
}

/// Linear acceleration and angular rate reported by the phone's motion
/// sensors (`rx`, `ry`, `rz` are the pitch, roll and yaw rates).
#[derive(Debug, Clone, Copy, PartialEq, Eq, Structural, Default)]
pub struct MotionData {
    pub ax: RealBits,
    pub ay: RealBits,
    pub az: RealBits,
    pub rx: RealBits,
    pub ry: RealBits,
    pub rz: RealBits,
}

/// Raw Euler angles in degrees: `alpha` about Z, `beta` about X, `gamma` about Y.
#[derive(Debug, Clone, Copy, PartialEq, Eq, Structural, Default)]
pub struct OrientationData {
    pub alpha: RealBits,
    pub beta: RealBits,
    pub gamma: RealBits,
}

/// One orientation sample streamed by a phone.
#[derive(Debug, Clone, Copy, PartialEq, Eq, Default)]
pub struct OrientationSample {
    pub alpha: Option<RealBits>,
    pub beta: Option<RealBits>,
    pub gamma: Option<RealBits>,
    pub heading: Option<RealBits>,
    /// Attitude quaternion `[x, y, z, w]`, when the phone has a fused sensor.
    pub quat: Option<[RealBits; 4]>,
    pub motion: Option<MotionData>,
    /// Time stamp in milliseconds.
    pub t: RealBits,
}

/// Messages sent by a remote (phone) to the server.
#[derive(Debug, Clone, PartialEq)]
pub enum ClientMessage {
    JoinRoom { room_id: String, player_name: Option<String> },
    Sample(OrientationSample),
    Motion(OrientationData),
    Button { button: RemoteButton, action: ButtonAction },
    CalibrateCenter,
    Speed { factor: RealBits },
    Ping,
}

/// Messages sent by the server to screens and remotes.
#[derive(Debug, Clone, PartialEq)]
pub enum ServerMessage {
    RoomJoined { player_id: usize, room_id: String },
    PlayerConnected { player_id: usize, total_players: usize },
    PlayerDisconnected { player_id: usize, total_players: usize },
    PlayerSample { player_id: usize, sample: OrientationSample },
    PlayerMotion { player_id: usize, orientation: OrientationData },
    PlayerButton { player_id: usize, button: RemoteButton, action: ButtonAction },
    Feedback { kind: String, combo: usize },
    Pong,
    Error { message: String },
}

} // verus!
