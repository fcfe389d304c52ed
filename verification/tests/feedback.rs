use rustwii::audio::{play_back, play_click, play_hover, play_start_chime, Tone};
use rustwii::cursor::player_color;
use rustwii::haptics::{haptic_medium, haptic_rumble, haptic_tap, trigger_haptic, Vibration};

#[test]
fn menu_tones() {
    assert_eq!(play_hover(), Tone { freq_start_centihertz: 58000, freq_end_centihertz: 72000, duration_ms: 50, gain_thousandths: 80 });
    assert_eq!(play_click(), Tone { freq_start_centihertz: 88000, freq_end_centihertz: 117400, duration_ms: 90, gain_thousandths: 150 });
    assert_eq!(play_back(), Tone { freq_start_centihertz: 60000, freq_end_centihertz: 42000, duration_ms: 80, gain_thousandths: 120 });
    assert_eq!(play_start_chime(), Tone { freq_start_centihertz: 52325, freq_end_centihertz: 65925, duration_ms: 120, gain_thousandths: 120 });
}

#[test]
fn vibration_pulses() {
    assert_eq!(trigger_haptic(7), Vibration { duration_ms: 7 });
    assert_eq!(haptic_tap().duration_ms, 20);
    assert_eq!(haptic_medium().duration_ms, 45);
    assert_eq!(haptic_rumble().duration_ms, 90);
}

#[test]
fn player_palette() {
    assert_eq!(player_color(1).name, "P1 (Azul)");
    assert_eq!(player_color(2).primary, "#ff4d4f");
    assert_eq!(player_color(3).glow, "rgba(82, 196, 26, 0.6)");
    assert_eq!(player_color(4).name, "P4 (Amarelo)");
    assert_eq!(player_color(0), player_color(1));
    assert_eq!(player_color(9), player_color(1));
}
