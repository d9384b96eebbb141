use audio_player::player::Player;

#[test]
fn load_success_yields_playable_state() {
    let mut p = Player::new();
    assert!(p.load(true));
    // The queue was just filled, so the host reports it as not drained.
    assert!(!p.empty(false));
    assert!(p.play(false));
}

#[test]
fn load_failure_leaves_empty_state() {
    let mut p = Player::new();
    assert!(!p.load(false));
    assert!(p.empty(false));
    assert!(p.empty(true));
    assert!(!p.play(false));
}

#[test]
fn load_failure_clears_prior_handles() {
    let mut p = Player::new();
    assert!(p.load(true));
    assert!(!p.load(false));
    assert!(p.empty(false));
}

#[test]
fn play_without_sink_reports_failure() {
    let mut p = Player::new();
    assert!(!p.play(false));
    assert!(!p.play(true));
}

#[test]
fn play_with_drained_queue_reports_failure() {
    let mut p = Player::new();
    assert!(p.load(true));
    assert!(!p.play(true));
}

#[test]
fn stop_clears_state_to_empty() {
    let mut p = Player::new();
    assert!(p.load(true));
    assert!(p.stop());
    assert!(p.empty(false));
    assert!(p.empty(true));
}

#[test]
fn stop_without_sink_is_noop() {
    let mut p = Player::new();
    assert!(!p.stop());
    assert!(p.empty(false));
}

#[test]
fn set_volume_before_load_is_noop() {
    let mut p = Player::new();
    let half = (50.0f32 / 100.0).to_bits();
    assert!(!p.set_volume(half));
    assert_eq!(p.current_volume(), 0);
}

#[test]
fn set_volume_with_sink_stores_level() {
    let mut p = Player::new();
    assert!(p.load(true));
    let quarter = (25.0f32 / 100.0).to_bits();
    assert!(p.set_volume(quarter));
    assert_eq!(p.current_volume(), quarter);
}

#[test]
fn volume_survives_stop_and_reload() {
    let mut p = Player::new();
    assert!(p.load(true));
    let full = (100.0f32 / 100.0).to_bits();
    assert!(p.set_volume(full));
    assert!(p.stop());
    assert_eq!(p.current_volume(), full);
    assert!(p.load(true));
    assert_eq!(p.current_volume(), full);
}

#[test]
fn pause_forwards_only_with_sink() {
    let mut p = Player::new();
    assert!(!p.pause());
    assert!(p.load(true));
    assert!(p.pause());
    // Pausing keeps the handles: the player is still loaded.
    assert!(!p.empty(false));
}

#[test]
fn new_player_is_empty_with_volume_zero() {
    let p = Player::new();
    assert!(p.empty(false));
    assert_eq!(p.current_volume(), 0);
    assert_eq!(p.current_volume(), (0.0f32).to_bits());
}
