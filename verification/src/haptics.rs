use vstd::prelude::*;

verus! {

/// A vibration pulse of the phone.
#[derive(Debug, Clone, Copy, PartialEq, Eq, Structural)]
pub struct Vibration {
    pub duration_ms: u32,
}

/// A vibration of `duration_ms` milliseconds.
pub fn trigger_haptic(duration_ms: u32) -> (pulse: Vibration)
    ensures
        pulse == (Vibration { duration_ms }),
{
    Vibration { duration_ms }
}

/// The short pulse of an ordinary button tap: 20 ms.
pub fn haptic_tap() -> (pulse: Vibration)
    ensures
        pulse == (Vibration { duration_ms: 20 }),
{
    trigger_haptic(20)
}

/// The medium pulse of special buttons (Home, calibration): 45 ms.
pub fn haptic_medium() -> (pulse: Vibration)
    ensures
        pulse == (Vibration { duration_ms: 45 }),
{
    trigger_haptic(45)
}

/// The strong rumble of the trigger or a hit: 90 ms.
pub fn haptic_rumble() -> (pulse: Vibration)
    ensures
        pulse == (Vibration { duration_ms: 90 }),
{
    trigger_haptic(90)
}

} // verus!
