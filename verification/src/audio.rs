use vstd::prelude::*;

verus! {

/// A short sine sweep of the menu sounds, in whole units: frequencies in
/// hundredths of a hertz, duration in milliseconds, loudness in thousandths
/// of full gain. The sweep goes from `freq_start` to `freq_end` while the
/// gain fades out.
#[derive(Debug, Clone, Copy, PartialEq, Eq, Structural)]
pub struct Tone {
    pub freq_start_centihertz: u32,
    pub freq_end_centihertz: u32,
    pub duration_ms: u32,
    pub gain_thousandths: u32,
}

/// The soft pop played when the pointer hovers over a channel:
/// 580 Hz to 720 Hz in 50 ms at gain 0.08.
pub fn play_hover() -> (tone: Tone)
    ensures
        tone == (Tone {
            freq_start_centihertz: 58000,
            freq_end_centihertz: 72000,
            duration_ms: 50,
            gain_thousandths: 80,
        }),
{
    Tone { freq_start_centihertz: 58000, freq_end_centihertz: 72000, duration_ms: 50, gain_thousandths: 80 }
}

/// The click played when A is pressed: 880 Hz to 1174 Hz in 90 ms at gain 0.15.
pub fn play_click() -> (tone: Tone)
    ensures
        tone == (Tone {
            freq_start_centihertz: 88000,
            freq_end_centihertz: 117400,
            duration_ms: 90,
            gain_thousandths: 150,
        }),
{
    Tone { freq_start_centihertz: 88000, freq_end_centihertz: 117400, duration_ms: 90, gain_thousandths: 150 }
}

/// The falling sound of going back: 600 Hz to 420 Hz in 80 ms at gain 0.12.
pub fn play_back() -> (tone: Tone)
    ensures
        tone == (Tone {
            freq_start_centihertz: 60000,
            freq_end_centihertz: 42000,
            duration_ms: 80,
            gain_thousandths: 120,
        }),
{
    Tone { freq_start_centihertz: 60000, freq_end_centihertz: 42000, duration_ms: 80, gain_thousandths: 120 }
}

/// The chime of a game start, C5 to E5: 523.25 Hz to 659.25 Hz in 120 ms at
/// gain 0.12.
pub fn play_start_chime() -> (tone: Tone)
    ensures
        tone == (Tone {
            freq_start_centihertz: 52325,
            freq_end_centihertz: 65925,
            duration_ms: 120,
            gain_thousandths: 120,
        }),
{
    Tone { freq_start_centihertz: 52325, freq_end_centihertz: 65925, duration_ms: 120, gain_thousandths: 120 }
}

} // verus!
