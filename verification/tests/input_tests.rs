use gamma::InputTracker;

#[test]
fn press_sets_held_and_just_pressed() {
    let mut t = InputTracker::new();
    t.on_key_event(42, true);
    assert!(t.is_held(42));
    assert!(t.is_just_pressed(42));
    assert!(!t.is_just_released(42));
}

#[test]
fn release_clears_held_and_sets_just_released() {
    let mut t = InputTracker::new();
    t.on_key_event(42, true);
    t.clear_edges();
    t.on_key_event(42, false);
    assert!(!t.is_held(42));
    assert!(!t.is_just_pressed(42));
    assert!(t.is_just_released(42));
}

#[test]
fn redundant_press_is_a_noop() {
    let mut t = InputTracker::new();
    t.on_key_event(7, true);
    t.clear_edges();
    t.on_key_event(7, true);
    assert!(t.is_held(7));
    assert!(!t.is_just_pressed(7));
}

#[test]
fn redundant_release_is_a_noop() {
    let mut t = InputTracker::new();
    t.on_key_event(7, false);
    assert!(!t.is_held(7));
    assert!(!t.is_just_released(7));
}

#[test]
fn held_tracks_latest_event() {
    let mut t = InputTracker::new();
    t.on_key_event(3, true);
    t.on_key_event(3, false);
    t.on_key_event(3, true);
    assert!(t.is_held(3));
    t.on_key_event(3, false);
    assert!(!t.is_held(3));
}

#[test]
fn edges_live_exactly_one_tick() {
    let mut t = InputTracker::new();
    t.on_key_event(9, true);
    assert!(t.is_just_pressed(9));
    t.clear_edges();
    assert!(!t.is_just_pressed(9));
    assert!(t.is_held(9));
    t.clear_edges();
    assert!(!t.is_just_pressed(9));
    t.on_key_event(9, false);
    assert!(t.is_just_released(9));
    t.clear_edges();
    assert!(!t.is_just_released(9));
}

#[test]
fn keys_are_tracked_independently() {
    let mut t = InputTracker::new();
    t.on_key_event(1, true);
    t.on_key_event(2, true);
    t.on_key_event(1, false);
    assert!(!t.is_held(1));
    assert!(t.is_held(2));
    assert!(t.is_just_pressed(2));
    assert!(t.is_just_released(1));
}

#[test]
fn reset_drops_everything() {
    let mut t = InputTracker::new();
    t.on_key_event(5, true);
    t.on_key_event(6, true);
    t.reset();
    assert!(!t.is_held(5));
    assert!(!t.is_held(6));
    assert!(!t.is_just_pressed(5));
    assert!(!t.is_just_pressed(6));
}
