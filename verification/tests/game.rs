use rustwii::game::{clock_tick, fires, hit_effect, respawn_spot, PlayerScore, TargetKind, MATCH_SECONDS};

#[test]
fn shots_and_hits_are_counted() {
    let mut stats = PlayerScore::default();
    assert_eq!(stats, PlayerScore { score: 0, shots_fired: 0, hits: 0 });
    stats.register_shot(None);
    stats.register_shot(Some(TargetKind::Standard));
    stats.register_shot(Some(TargetKind::Gold));
    stats.register_shot(Some(TargetKind::Bomb));
    assert_eq!(stats, PlayerScore { score: 250, shots_fired: 4, hits: 3 });
}

#[test]
fn hit_effects() {
    let e = hit_effect(TargetKind::Standard, 0);
    assert_eq!((e.points, e.text, e.color), (100, "+100", "#00a8e8"));
    let e = hit_effect(TargetKind::Gold, 2);
    assert_eq!((e.points, e.text, e.color), (300, "+300", "#52c41a"));
    let e = hit_effect(TargetKind::Bomb, 1);
    assert_eq!((e.points, e.text, e.color), (-150, "-150", "#ef4444"));
}

#[test]
fn radii() {
    assert_eq!(TargetKind::Standard.radius_tenths(), 45);
    assert_eq!(TargetKind::Gold.radius_tenths(), 32);
    assert_eq!(TargetKind::Bomb.radius_tenths(), 40);
}

#[test]
fn only_new_presses_fire() {
    assert!(fires(true, false, true, false));
    assert!(!fires(true, true, true, false));
    assert!(!fires(false, false, true, false));
    assert!(!fires(true, false, false, false));
    assert!(!fires(true, false, true, true));
}

#[test]
fn respawn_positions() {
    assert_eq!(respawn_spot(1), (27, 38));
    assert_eq!(respawn_spot(5), (15, 65));
    assert_eq!(respawn_spot(0), (10, 15));
    assert_eq!(respawn_spot(usize::MAX), (25, 35));
}

#[test]
fn clock_counts_down_to_game_over() {
    assert_eq!(MATCH_SECONDS, 45);
    assert_eq!(clock_tick(45), (44, false));
    assert_eq!(clock_tick(2), (1, false));
    assert_eq!(clock_tick(1), (0, true));
    assert_eq!(clock_tick(0), (0, true));
}
