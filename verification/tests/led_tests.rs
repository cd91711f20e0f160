use step_sequencer::led::{
    match_key_to_led, match_note_to_color, match_note_to_led, match_step_to_led, Color, LedDriver,
};
use step_sequencer::keyboard::{CodeKey, FunctionKey, Key, ModifierKey, NavKey};
use step_sequencer::sequencer::{cv_recording, gate_recording, Sequencer};
use step_sequencer::track::{Note, Track, TrackMode};

fn off() -> Color {
    Color { r: 0x00, g: 0x00, b: 0x00 }
}

fn gate() -> Color {
    Color { r: 0x00, g: 0x00, b: 0x10 }
}

fn clock() -> Color {
    Color { r: 0x00, g: 0x10, b: 0x00 }
}

fn gate_mode() -> Color {
    Color { r: 0x10, g: 0x00, b: 0x00 }
}

fn cv_mode() -> Color {
    Color { r: 0x10, g: 0x10, b: 0x00 }
}

fn track0() -> Color {
    Color { r: 0x00, g: 0x00, b: 0x05 }
}

#[test]
fn new_buffer_is_all_off() {
    let d = LedDriver::new();
    assert_eq!(d.leds.len(), 18);
    for c in &d.leds {
        assert_eq!(*c, off());
    }
}

#[test]
fn clear_switches_everything_off() {
    let mut d = LedDriver::new();
    d.set_gate_on(0);
    d.set_clock(3);
    d.clear();
    for c in &d.leds {
        assert_eq!(*c, off());
    }
}

#[test]
fn setters_write_their_single_position() {
    let mut d = LedDriver::new();
    d.set_gate_on(2);
    assert_eq!(d.leds[10], gate());
    d.set_clock(0);
    assert_eq!(d.leds[8], clock());
    d.set_track_mode(TrackMode::CV);
    assert_eq!(d.leds[7], cv_mode());
    d.set_track_mode(TrackMode::GATE);
    assert_eq!(d.leds[7], gate_mode());
    d.set_active_track(0);
    assert_eq!(d.leds[0], track0());
    d.set_note(Note::G);
    assert_eq!(d.leds[12], match_note_to_color(Note::G).unwrap());
    d.set_recording_position(1, Note::D);
    assert_eq!(d.leds[9], match_note_to_color(Note::D).unwrap());
}

#[test]
fn step_led_positions() {
    for step in 0..8 {
        assert_eq!(match_step_to_led(step), Some(step + 8));
    }
}

#[test]
fn key_led_positions() {
    assert_eq!(match_key_to_led(Key::FunctionKey(FunctionKey::FN1)), Some(0));
    assert_eq!(match_key_to_led(Key::FunctionKey(FunctionKey::FN2)), Some(6));
    assert_eq!(match_key_to_led(Key::ModifierKey(ModifierKey::SHIFT)), Some(7));
    assert_eq!(match_key_to_led(Key::NavKey(NavKey::BACK)), Some(16));
    assert_eq!(match_key_to_led(Key::NavKey(NavKey::FORWARD)), Some(17));
    assert_eq!(match_key_to_led(Key::CodeKey(CodeKey::KEY0)), Some(8));
    assert_eq!(match_key_to_led(Key::CodeKey(CodeKey::KEY7)), Some(15));
    assert_eq!(match_key_to_led(Key::CodeKey(CodeKey::KEY8)), Some(1));
    assert_eq!(match_key_to_led(Key::CodeKey(CodeKey::KEY12)), Some(5));
}

#[test]
fn note_led_positions() {
    assert_eq!(match_note_to_led(Note::C), Some(8));
    assert_eq!(match_note_to_led(Note::B), Some(14));
    assert_eq!(match_note_to_led(Note::Db), Some(1));
    assert_eq!(match_note_to_led(Note::Bb), Some(5));
}

#[test]
fn note_colors_are_defined_for_every_note() {
    let notes = [
        Note::A,
        Note::Ab,
        Note::B,
        Note::Bb,
        Note::C,
        Note::D,
        Note::Db,
        Note::E,
        Note::Eb,
        Note::F,
        Note::G,
        Note::Gb,
    ];
    for n in notes {
        assert!(match_note_to_color(n).is_some());
    }
    assert_eq!(match_note_to_color(Note::A), Some(off()));
    assert_eq!(match_note_to_color(Note::G), Some(Color { r: 0x01, g: 0x01, b: 0x01 }));
}

#[test]
fn gate_frame_composition() {
    let mut d = LedDriver::new();
    let mut t = Track::new();
    t.toggle_step(0);
    t.toggle_step(3);
    gate_recording(&mut d, &mut t, 0);
    // the clock at cursor 0 overlays the lit gate of step 0
    assert_eq!(d.leds[8], clock());
    assert_eq!(d.leds[11], gate());
    assert_eq!(d.leds[0], track0());
    assert_eq!(d.leds[7], gate_mode());
    for i in [1, 2, 3, 4, 5, 6, 9, 10, 12, 13, 14, 15, 16, 17] {
        assert_eq!(d.leds[i], off());
    }
}

#[test]
fn cv_frame_while_playing_shows_current_note() {
    let mut d = LedDriver::new();
    let mut t = Track::new();
    t.set_mode(TrackMode::CV);
    t.set_note(0, Note::G);
    t.play();
    cv_recording(&mut d, &mut t, 0);
    // note G lights its own position, the clock its step position
    assert_eq!(d.leds[12], match_note_to_color(Note::G).unwrap());
    assert_eq!(d.leds[8], clock());
    assert_eq!(d.leds[0], track0());
    assert_eq!(d.leds[7], cv_mode());
}

#[test]
fn cv_frame_while_paused_shows_recorded_notes() {
    let mut d = LedDriver::new();
    let mut t = Track::new();
    t.set_mode(TrackMode::CV);
    t.record_note(Note::D);
    t.record_note(Note::E);
    cv_recording(&mut d, &mut t, 1);
    assert_eq!(d.leds[8], match_note_to_color(Note::D).unwrap());
    assert_eq!(d.leds[9], match_note_to_color(Note::E).unwrap());
    // the clock marks the recording cursor's step
    assert_eq!(d.leds[10], clock());
    assert_eq!(d.leds[7], cv_mode());
}

#[test]
fn led_ctrl_composes_by_current_mode() {
    let mut s = Sequencer::new();
    let mut d = LedDriver::new();
    s.track_mut(0).toggle_step(4);
    s.led_ctrl(&mut d);
    assert_eq!(d.leds[12], gate());
    assert_eq!(d.leds[8], clock());
    assert_eq!(d.leds[7], gate_mode());
    s.track_mut(0).set_mode(TrackMode::CV);
    s.led_ctrl(&mut d);
    assert_eq!(d.leds[7], cv_mode());
}
