//! Verified core of the RustWii motion-controller system: the message
//! vocabulary exchanged between phones and screens, the room registry that
//! hands out player slots, the decisions taken by the relay server and by
//! the screen and remote front ends, and the scoring rules of the target
//! shooting game.

pub mod types;
pub mod room;
pub mod session;
pub mod screen;
pub mod audio;
pub mod haptics;
pub mod cursor;
pub mod game;
pub mod calibration;
pub mod remote;
pub mod text;
pub mod urls;
pub mod qr;
pub mod tls;
mod certified;
