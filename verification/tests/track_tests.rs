use step_sequencer::track::{gate_from_flag, note_from_index, Gate, Note, Track, TrackMode};

#[test]
fn new_track_defaults() {
    let mut t = Track::new();
    assert_eq!(t.get_track_length(), 8);
    assert_eq!(t.get_cursor(), 0);
    assert!(t.is_playing());
    assert_eq!(t.get_mode(), TrackMode::GATE);
    for i in 0..8 {
        assert_eq!(t.get_gate(i), Gate::OFF);
        assert_eq!(t.get_note(i), Note::C);
    }
}

#[test]
fn toggle_step_involution() {
    let mut t = Track::new();
    for i in 0..8 {
        let before = t.get_gate(i);
        t.toggle_step(i);
        assert_ne!(t.get_gate(i), before);
        t.toggle_step(i);
        assert_eq!(t.get_gate(i), before);
    }
}

#[test]
fn scenario_new_track_toggle_then_tick() {
    let mut t = Track::new();
    t.toggle_step(0);
    t.tick();
    assert_eq!(t.get_gate(0), Gate::ON);
    assert_eq!(t.get_cursor(), 1);
}

#[test]
fn tick_full_cycle_restores_cursor() {
    let mut t = Track::new();
    t.tick();
    t.tick();
    let start = t.get_cursor();
    for _ in 0..8 {
        t.tick();
    }
    assert_eq!(t.get_cursor(), start);
}

#[test]
fn tick_while_stopped_changes_nothing() {
    let mut t = Track::new();
    t.tick();
    t.toggle_pause();
    let cursor = t.get_cursor();
    for _ in 0..5 {
        t.tick();
    }
    assert_eq!(t.get_cursor(), cursor);
}

#[test]
fn record_note_keeps_cursor_in_range_and_wraps() {
    let mut t = Track::new();
    t.set_mode(TrackMode::CV);
    assert!(!t.is_playing());
    for i in 0..8 {
        assert_eq!(t.get_cursor(), i);
        t.record_note(Note::G);
        assert!(t.get_cursor() < 8);
    }
    assert_eq!(t.get_cursor(), 0);
    assert!(t.is_playing());
}

#[test]
fn scenario_record_fills_all_steps() {
    let mut t = Track::new();
    t.set_mode(TrackMode::CV);
    for _ in 0..8 {
        t.record_note(Note::G);
    }
    for i in 0..8 {
        assert_eq!(t.get_note(i), Note::G);
        assert_eq!(t.get_gate(i), Gate::ON);
    }
    assert_eq!(t.get_cursor(), 0);
    assert!(t.is_playing());
}

#[test]
fn set_mode_cv_stops_and_resets() {
    let mut t = Track::new();
    t.tick();
    t.tick();
    assert_eq!(t.get_cursor(), 2);
    t.set_mode(TrackMode::CV);
    assert_eq!(t.get_mode(), TrackMode::CV);
    assert!(!t.is_playing());
    assert_eq!(t.get_cursor(), 0);
}

#[test]
fn set_mode_gate_is_a_pure_setter() {
    let mut t = Track::new();
    t.tick();
    let cursor = t.get_cursor();
    t.set_mode(TrackMode::GATE);
    assert_eq!(t.get_mode(), TrackMode::GATE);
    assert!(t.is_playing());
    assert_eq!(t.get_cursor(), cursor);
}

#[test]
fn toggle_mode_alternates() {
    let mut t = Track::new();
    t.toggle_mode();
    assert_eq!(t.get_mode(), TrackMode::CV);
    t.toggle_mode();
    assert_eq!(t.get_mode(), TrackMode::GATE);
}

#[test]
fn stop_resets_cursor_pause_keeps_it() {
    let mut t = Track::new();
    t.tick();
    t.tick();
    t.toggle_pause();
    assert!(!t.is_playing());
    assert_eq!(t.get_cursor(), 2);
    t.toggle_pause();
    assert!(t.is_playing());
    t.toggle_play();
    assert!(!t.is_playing());
    assert_eq!(t.get_cursor(), 0);
    t.toggle_play();
    assert!(t.is_playing());
}

#[test]
fn clear_turns_gates_off_and_notes_to_c() {
    let mut t = Track::new();
    t.toggle_step(1);
    t.toggle_step(6);
    t.set_note(2, Note::A);
    t.clear();
    for i in 0..8 {
        assert_eq!(t.get_gate(i), Gate::OFF);
        assert_eq!(t.get_note(i), Note::C);
    }
}

#[test]
fn set_gate_and_set_note() {
    let mut t = Track::new();
    t.set_gate(4, Gate::ON);
    assert_eq!(t.get_gate(4), Gate::ON);
    t.set_note(4, Note::Eb);
    assert_eq!(t.get_note(4), Note::Eb);
    t.set_gate(4, Gate::OFF);
    assert_eq!(t.get_gate(4), Gate::OFF);
}

#[test]
fn current_step_getters_follow_cursor() {
    let mut t = Track::new();
    t.set_note(1, Note::F);
    t.set_gate(1, Gate::ON);
    t.tick();
    assert_eq!(t.get_current_note(), Note::F);
    assert_eq!(t.get_current_gate(), Gate::ON);
}

fn pattern_of(t: &mut Track) -> Vec<(Gate, Note)> {
    (0..8).map(|i| (t.get_gate(i), t.get_note(i))).collect()
}

#[test]
fn randomize_is_deterministic_in_seed() {
    // both tracks start from the same (zero) seed
    let mut a = Track::new();
    let mut b = Track::new();
    a.randomize(4);
    b.randomize(4);
    assert_eq!(pattern_of(&mut a), pattern_of(&mut b));
    // the advanced seeds are equal too: a second draw still agrees
    a.randomize(4);
    b.randomize(4);
    assert_eq!(pattern_of(&mut a), pattern_of(&mut b));
}

#[test]
fn randomize_advances_the_seed() {
    let mut t = Track::new();
    t.randomize(4);
    let first = pattern_of(&mut t);
    t.randomize(4);
    let second = pattern_of(&mut t);
    assert_ne!(first, second);
}

#[test]
fn randomize_keeps_cursor_mode_and_playback() {
    let mut t = Track::new();
    t.tick();
    t.tick();
    t.toggle_pause();
    t.randomize(8);
    assert_eq!(t.get_cursor(), 2);
    assert!(!t.is_playing());
    assert_eq!(t.get_mode(), TrackMode::GATE);
}

#[test]
fn apply_random_pattern_is_deterministic_in_draws() {
    let notes: Vec<u8> = vec![0, 1, 2, 3, 4, 5, 6, 7];
    let gates: Vec<bool> = vec![true, false, true, false, true, false, true, false];
    let mut a = Track::new();
    let mut b = Track::new();
    a.apply_random_pattern(99, &notes, &gates);
    b.apply_random_pattern(99, &notes, &gates);
    assert_eq!(pattern_of(&mut a), pattern_of(&mut b));
    assert_eq!(a.get_note(0), Note::A);
    assert_eq!(a.get_gate(0), Gate::ON);
    assert_eq!(a.get_note(7), Note::E);
    assert_eq!(a.get_gate(7), Gate::OFF);
}

#[test]
fn note_from_index_table() {
    let expected = [
        Note::A,
        Note::Ab,
        Note::B,
        Note::Bb,
        Note::C,
        Note::D,
        Note::Db,
        Note::E,
        Note::Eb,
        Note::F,
        Note::G,
        Note::Gb,
    ];
    for (i, want) in expected.iter().enumerate() {
        assert_eq!(note_from_index(i as u8), *want);
    }
}

#[test]
fn gate_from_flag_table() {
    assert_eq!(gate_from_flag(true), Gate::ON);
    assert_eq!(gate_from_flag(false), Gate::OFF);
}
