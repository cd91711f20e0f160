//! The sequencer proper: the eight tracks and the selected track behind one
//! aggregate, the chord dispatch that mutates them, the tick chain that
//! advances playback and times the outputs, and the composition of the
//! status-light frame.
//!
//! Scheduling is by absolute deadline: every job's next deadline is computed
//! from its previous deadline, never from the current time, so the chain
//! cannot drift however long it runs.  Arming the timers, like all device
//! I/O, happens outside this crate.

use vstd::prelude::*;

use crate::constants::GATE_LENGTH_US;
use crate::constants::KEYBOARD_KEY_PRESS_DELAY_MS;
use crate::constants::KEYBOARD_REFRESH_MS;
use crate::constants::LED_COUNT;
use crate::constants::STEP_LENGTH_US;
use crate::constants::STEPS_COUNT;
use crate::constants::TRACKS_COUNT;
use crate::keyboard::FunctionKey;
use crate::keyboard::Key;
use crate::keyboard::Keyboard;
use crate::keyboard::KeyEvent;
use crate::keyboard::ModifierKey;
use crate::keyboard::NavKey;
use crate::keyboard::spec_match_note;
use crate::keyboard::spec_match_step;
use crate::led::Color;
use crate::led::LedDriver;
use crate::led::spec_active_track_color;
use crate::led::spec_clock_color;
use crate::led::spec_gate_color;
use crate::led::spec_key_led;
use crate::led::spec_mode_color;
use crate::led::spec_note_color;
use crate::led::spec_note_led;
use crate::led::spec_off_color;
use crate::led::spec_step_led;
use crate::track::Gate;
use crate::track::Note;
use crate::track::Track;
use crate::track::TrackMode;
use crate::track::TrackModel;
use crate::track::spec_clear;
use crate::track::spec_new_track;
use crate::track::spec_record_note;
use crate::track::spec_tick;
use crate::track::spec_toggle_mode;
use crate::track::spec_toggle_pause;
use crate::track::spec_toggle_play;
use crate::track::spec_toggle_step;

verus! {

/// The DAC code a GATE-mode output drives while the current step's gate
/// is on (the maximum of the 12-bit scale in use).
pub const DAC_GATE_ON_CODE: u16 = 4080;

/// The mathematical view of a [`Sequencer`].
#[verifier::ext_equal]
pub ghost struct SequencerModel {
    pub tracks: Seq<TrackModel>,
    pub current_track: int,
}

impl SequencerModel {
    /// Exactly `TRACKS_COUNT` well-formed tracks, one of them selected.
    pub open spec fn wf(self) -> bool {
        &&& self.tracks.len() == TRACKS_COUNT
        &&& 0 <= self.current_track < TRACKS_COUNT
        &&& forall|i: int| 0 <= i < TRACKS_COUNT ==> (#[trigger] self.tracks[i]).wf()
    }
}

/// The DAC code a track drives at its current step: in GATE mode the
/// maximum code while the step's gate is on and zero otherwise, in CV mode
/// the code of the step's note.
pub open spec fn spec_dac_code(m: TrackModel) -> u16 {
    if m.mode == TrackMode::GATE {
        if m.pattern[m.cursor].gate == Gate::ON {
            DAC_GATE_ON_CODE
        } else {
            0
        }
    } else {
        spec_note_to_cv(m.pattern[m.cursor].note)
    }
}

/// The note-to-voltage table: monotonic over the step-key naturals, a
/// placeholder rather than a tempered scale, kept replaceable on purpose.
pub open spec fn spec_note_to_cv(note: Note) -> u16 {
    match note {
        Note::C => 0,
        Note::D => 400,
        Note::E => 800,
        Note::F => 1200,
        Note::G => 1600,
        Note::A => 2400,
        Note::B => 2800,
        Note::Db => 3200,
        Note::Eb => 3600,
        Note::Gb => 4080,
        Note::Ab => 4080,
        Note::Bb => 4080,
    }
}

/// The note-to-voltage table.
pub fn match_note_to_cv(note: Note) -> (code: u16)
    ensures
        code == spec_note_to_cv(note),
{
    match note {
        Note::C => 0,
        Note::D => 400,
        Note::E => 800,
        Note::F => 1200,
        Note::G => 1600,
        Note::A => 2400,
        Note::B => 2800,
        Note::Db => 3200,
        Note::Eb => 3600,
        Note::Gb => 4080,
        Note::Ab => 4080,
        Note::Bb => 4080,
    }
}

/// What a tick schedules next: a gate-reset deadline and the next tick
/// deadline, both absolute and computed from this tick's own deadline.
#[derive(Copy, Clone, PartialEq, Eq, Structural, Debug)]
pub struct TickSchedule {
    pub gate_reset_at: u64,
    pub next_tick_at: u64,
}

/// A mutable borrow of one element of a vector.
fn vec_at_mut<T>(v: &mut Vec<T>, i: usize) -> (element: &mut T)
    requires
        i < old(v).len(),
    ensures
        *element == old(v)@[i as int],
        final(v)@ == old(v)@.update(i as int, *final(element)),
{
    &mut v[i]
}

/// The whole shared state of the sequencer: the eight tracks and the index
/// of the selected one.  Tasks touch it one at a time, each through one
/// call, so every method here is one whole critical section.
#[derive(Debug)]
pub struct Sequencer {
    tracks: Vec<Track>,
    current_track: usize,
}

impl View for Sequencer {
    type V = SequencerModel;

    closed spec fn view(&self) -> SequencerModel {
        SequencerModel {
            tracks: Seq::new(self.tracks@.len(), |i: int| self.tracks@[i]@),
            current_track: self.current_track as int,
        }
    }
}

impl Sequencer {
    /// All eight tracks fresh, the first one selected.
    pub fn new() -> (s: Sequencer)
        ensures
            s@.wf(),
            s@.current_track == 0,
            s@.tracks.len() == TRACKS_COUNT,
            forall|i: int| 0 <= i < TRACKS_COUNT ==> s@.tracks[i] == spec_new_track(),
    {
        let mut tracks: Vec<Track> = Vec::new();
        let mut i: usize = 0;
        while i < TRACKS_COUNT
            invariant
                i <= TRACKS_COUNT,
                tracks@.len() == i,
                forall|j: int| 0 <= j < i ==> tracks@[j]@ == spec_new_track(),
            decreases TRACKS_COUNT - i,
        {
            tracks.push(Track::new());
            i = i + 1;
        }
        Sequencer { tracks, current_track: 0 }
    }

    /// The index of the selected track.
    pub fn get_current_track(&self) -> (c: usize)
        ensures
            c == self@.current_track,
    {
        self.current_track
    }

    /// A mutable borrow of track `index`.
    pub fn track_mut(&mut self, index: usize) -> (t: &mut Track)
        requires
            index < old(self)@.tracks.len(),
        ensures
            (*t)@ == old(self)@.tracks[index as int],
            final(self)@.tracks =~= old(self)@.tracks.update(index as int, final(t)@),
            final(self)@.current_track == old(self)@.current_track,
    {
        vec_at_mut(&mut self.tracks, index)
    }

    /// One tick of the clock chain, due at the absolute time `instant`:
    /// advance every track by one step, and say when all gates must be
    /// cleared and when the next tick is due — both offsets from `instant`
    /// itself, so that the chain keeps musical time without drift.
    pub fn tick(&mut self, instant: u64) -> (sched: TickSchedule)
        requires
            old(self)@.wf(),
            instant + STEP_LENGTH_US <= u64::MAX,
        ensures
            final(self)@.wf(),
            final(self)@.current_track == old(self)@.current_track,
            forall|i: int|
                0 <= i < TRACKS_COUNT ==> final(self)@.tracks[i] == spec_tick(
                    #[trigger] old(self)@.tracks[i],
                ),
            sched.gate_reset_at == instant + GATE_LENGTH_US,
            sched.next_tick_at == instant + STEP_LENGTH_US,
    {
        let mut i: usize = 0;
        while i < TRACKS_COUNT
            invariant
                old(self)@.wf(),
                i <= TRACKS_COUNT,
                self@.tracks.len() == TRACKS_COUNT,
                self@.current_track == old(self)@.current_track,
                forall|j: int|
                    0 <= j < i ==> self@.tracks[j] == spec_tick(#[trigger] old(self)@.tracks[j]),
                forall|j: int| i <= j < TRACKS_COUNT ==> self@.tracks[j] == old(self)@.tracks[j],
            decreases TRACKS_COUNT - i,
        {
            let t = vec_at_mut(&mut self.tracks, i);
            proof {
                assert(t@ == old(self)@.tracks[i as int]);
            }
            t.tick();
            i = i + 1;
        }
        proof {
            assert forall|j: int| 0 <= j < TRACKS_COUNT implies (#[trigger] self@.tracks[j]).wf() by {
                assert(self@.tracks[j] == spec_tick(old(self)@.tracks[j]));
                assert(old(self)@.tracks[j].wf());
            }
        }
        TickSchedule { gate_reset_at: instant + GATE_LENGTH_US, next_tick_at: instant + STEP_LENGTH_US }
    }

    /// The DAC codes for the two output-wired tracks (fixed: tracks 0 and
    /// 1), as written once per tick.
    pub fn cv_ctrl(&mut self) -> (codes: (u16, u16))
        requires
            old(self)@.wf(),
        ensures
            final(self)@ == old(self)@,
            codes.0 == spec_dac_code(old(self)@.tracks[0]),
            codes.1 == spec_dac_code(old(self)@.tracks[1]),
    {
        let c0 = self.dac_code_of(0);
        let c1 = self.dac_code_of(1);
        (c0, c1)
    }

    /// The DAC code track `index` drives at its current step.
    fn dac_code_of(&mut self, index: usize) -> (code: u16)
        requires
            old(self)@.wf(),
            index < TRACKS_COUNT,
        ensures
            final(self)@ == old(self)@,
            code == spec_dac_code(old(self)@.tracks[index as int]),
    {
        let t = vec_at_mut(&mut self.tracks, index);
        proof {
            assert(t@ == old(self)@.tracks[index as int]);
        }
        let code = match t.get_mode() {
            TrackMode::GATE => {
                if t.get_current_gate() == Gate::ON {
                    DAC_GATE_ON_CODE
                } else {
                    0
                }
            },
            TrackMode::CV => match_note_to_cv(t.get_current_note()),
        };
        proof {
            assert(self@.tracks =~= old(self)@.tracks);
            assert(self@ =~= old(self)@);
        }
        code
    }

    /// The codes written by gate reset once a step's on-time has
    /// passed: zero for each output-wired track in GATE mode; a track in CV
    /// mode is untouched and its voltage persists until the next tick.
    pub fn gate_reset(&mut self) -> (codes: (Option<u16>, Option<u16>))
        requires
            old(self)@.wf(),
        ensures
            final(self)@ == old(self)@,
            codes.0 == (if old(self)@.tracks[0].mode == TrackMode::GATE {
                Some(0u16)
            } else {
                None::<u16>
            }),
            codes.1 == (if old(self)@.tracks[1].mode == TrackMode::GATE {
                Some(0u16)
            } else {
                None::<u16>
            }),
    {
        let c0 = self.gate_reset_code_of(0);
        let c1 = self.gate_reset_code_of(1);
        (c0, c1)
    }

    /// What gate reset writes for track `index`, if its mode asks for one.
    fn gate_reset_code_of(&mut self, index: usize) -> (code: Option<u16>)
        requires
            old(self)@.wf(),
            index < TRACKS_COUNT,
        ensures
            final(self)@ == old(self)@,
            code == (if old(self)@.tracks[index as int].mode == TrackMode::GATE {
                Some(0u16)
            } else {
                None::<u16>
            }),
    {
        let t = vec_at_mut(&mut self.tracks, index);
        proof {
            assert(t@ == old(self)@.tracks[index as int]);
        }
        let code = if t.get_mode() == TrackMode::GATE {
            Some(0u16)
        } else {
            None
        };
        proof {
            assert(self@.tracks =~= old(self)@.tracks);
            assert(self@ =~= old(self)@);
        }
        code
    }
}

/// Whether a chord matches some row of the dispatch table.  A matched
/// chord re-arms the decoder after the debounce delay, an unmatched one
/// after the longer idle poll interval.
pub open spec fn spec_chord_matches(e: KeyEvent) -> bool {
    match (e.function, e.modifier, e.nav, e.code) {
        (Some(FunctionKey::FN1), Some(ModifierKey::SHIFT), None, None) => true,
        (None, Some(ModifierKey::SHIFT), Some(NavKey::FORWARD), None) => true,
        (Some(FunctionKey::FN1), None, Some(NavKey::FORWARD), None) => true,
        (Some(FunctionKey::FN1), None, Some(NavKey::BACK), None) => true,
        (Some(FunctionKey::FN2), Some(ModifierKey::SHIFT), None, None) => true,
        (None, Some(ModifierKey::SHIFT), Some(NavKey::BACK), None) => true,
        (Some(FunctionKey::FN1), None, None, Some(_)) => true,
        (Some(FunctionKey::FN2), None, None, Some(_)) => true,
        (None, None, None, Some(_)) => true,
        (_, _, _, _) => false,
    }
}

/// What a randomization does to a track, seen from outside: the pattern's
/// notes and gates are regenerated and the seed advances, while the cursor,
/// the playing flag, the mode and every step's octave and velocity keep
/// their values.
pub open spec fn spec_randomize_effect(t0: TrackModel, t1: TrackModel) -> bool {
    &&& t1.wf()
    &&& t1.cursor == t0.cursor
    &&& t1.playing == t0.playing
    &&& t1.mode == t0.mode
    &&& t1.pattern.len() == t0.pattern.len()
    &&& forall|i: int|
        0 <= i < t0.pattern.len() ==> (#[trigger] t1.pattern[i]).octave == t0.pattern[i].octave
            && t1.pattern[i].velocity == t0.pattern[i].velocity
}

/// The dispatch table: what one decoded chord does to the sequencer.
/// Every row pins the next state exactly but the randomize row, whose
/// fresh notes and gates come from the generator and which therefore
/// states the frame `spec_randomize_effect` instead.  Unmatched chords,
/// and matched rows whose index check fails, change nothing.
pub open spec fn spec_dispatch(pre: SequencerModel, post: SequencerModel, e: KeyEvent) -> bool {
    let cur = pre.current_track;
    let t = pre.tracks[cur];
    match (e.function, e.modifier, e.nav, e.code) {
        // switch the current track's recording mode
        (Some(FunctionKey::FN1), Some(ModifierKey::SHIFT), None, None) => post
            == SequencerModel { tracks: pre.tracks.update(cur, spec_toggle_mode(t)), ..pre },
        // select the next track, wrapping at the end
        (None, Some(ModifierKey::SHIFT), Some(NavKey::FORWARD), None) => post
            == SequencerModel {
            current_track: if cur < TRACKS_COUNT - 1 {
                cur + 1
            } else {
                0
            },
            ..pre
        },
        // toggle play/stop on the current track
        (Some(FunctionKey::FN1), None, Some(NavKey::FORWARD), None) => post
            == SequencerModel { tracks: pre.tracks.update(cur, spec_toggle_play(t)), ..pre },
        // toggle play/pause on the current track
        (Some(FunctionKey::FN1), None, Some(NavKey::BACK), None) => post
            == SequencerModel { tracks: pre.tracks.update(cur, spec_toggle_pause(t)), ..pre },
        // clear the current track's pattern
        (Some(FunctionKey::FN2), Some(ModifierKey::SHIFT), None, None) => post
            == SequencerModel { tracks: pre.tracks.update(cur, spec_clear(t)), ..pre },
        // select the previous track, wrapping at the start
        (None, Some(ModifierKey::SHIFT), Some(NavKey::BACK), None) => post
            == SequencerModel {
            current_track: if cur > 0 {
                cur - 1
            } else {
                TRACKS_COUNT - 1
            },
            ..pre
        },
        // switch to the track the code key names, if it names one
        (Some(FunctionKey::FN1), None, None, Some(code)) => if spec_match_step(code)
            < TRACKS_COUNT {
            post == SequencerModel { current_track: spec_match_step(code) as int, ..pre }
        } else {
            post == pre
        },
        // randomize the current track, probability keyed by the code key
        (Some(FunctionKey::FN2), None, None, Some(code)) => if spec_match_step(code)
            <= STEPS_COUNT {
            &&& post.current_track == pre.current_track
            &&& post.tracks.len() == pre.tracks.len()
            &&& spec_randomize_effect(t, post.tracks[cur])
            &&& forall|j: int|
                0 <= j < pre.tracks.len() && j != cur ==> post.tracks[j] == #[trigger] pre.tracks[j]
        } else {
            post == pre
        },
        // a bare code key: record a note in CV mode, toggle a step in GATE mode
        (None, None, None, Some(code)) => if t.mode == TrackMode::CV {
            post == SequencerModel {
                tracks: pre.tracks.update(cur, spec_record_note(t, spec_match_note(code))),
                ..pre
            }
        } else if spec_match_step(code) < STEPS_COUNT {
            post == SequencerModel {
                tracks: pre.tracks.update(cur, spec_toggle_step(t, spec_match_step(code) as int)),
                ..pre
            }
        } else {
            post == pre
        },
        (_, _, _, _) => post == pre,
    }
}

/// A well-formed sequencer stays well formed when one track is replaced by
/// a well-formed track.
proof fn lemma_wf_after_update(m: SequencerModel, i: int, t: TrackModel)
    requires
        m.wf(),
        0 <= i < TRACKS_COUNT,
        t.wf(),
    ensures
        (SequencerModel { tracks: m.tracks.update(i, t), ..m }).wf(),
{
}

impl Sequencer {
    /// Dispatch one decoded chord against the table of `spec_dispatch`,
    /// and say how long to wait before the next scan: the short debounce
    /// delay after a matched chord, the idle poll interval otherwise.
    pub fn keyboard_ctrl(&mut self, keyboard: &Keyboard) -> (delay: u64)
        requires
            old(self)@.wf(),
        ensures
            final(self)@.wf(),
            spec_dispatch(old(self)@, final(self)@, keyboard.key_event),
            delay == (if spec_chord_matches(keyboard.key_event) {
                KEYBOARD_KEY_PRESS_DELAY_MS
            } else {
                KEYBOARD_REFRESH_MS
            }),
    {
        let cur = self.current_track;
        let ghost pre = self@;
        let ghost t0 = self@.tracks[cur as int];
        match (
            keyboard.key_event.function,
            keyboard.key_event.modifier,
            keyboard.key_event.nav,
            keyboard.key_event.code,
        ) {
            // switch the current track's recording mode
            (Some(FunctionKey::FN1), Some(ModifierKey::SHIFT), None, None) => {
                let track = self.track_mut(cur);
                track.toggle_mode();
                proof {
                    lemma_wf_after_update(pre, cur as int, spec_toggle_mode(t0));
                    assert(self@ =~= SequencerModel {
                        tracks: pre.tracks.update(cur as int, spec_toggle_mode(t0)),
                        ..pre
                    });
                }
                KEYBOARD_KEY_PRESS_DELAY_MS
            },
            // select the next track
            (None, Some(ModifierKey::SHIFT), Some(NavKey::FORWARD), None) => {
                self.current_track = if cur < TRACKS_COUNT - 1 {
                    cur + 1
                } else {
                    0
                };
                proof {
                    assert(self@ =~= SequencerModel {
                        current_track: self.current_track as int,
                        ..pre
                    });
                }
                KEYBOARD_KEY_PRESS_DELAY_MS
            },
            // toggle play/stop on the current track
            (Some(FunctionKey::FN1), None, Some(NavKey::FORWARD), None) => {
                let track = self.track_mut(cur);
                track.toggle_play();
                proof {
                    lemma_wf_after_update(pre, cur as int, spec_toggle_play(t0));
                    assert(self@ =~= SequencerModel {
                        tracks: pre.tracks.update(cur as int, spec_toggle_play(t0)),
                        ..pre
                    });
                }
                KEYBOARD_KEY_PRESS_DELAY_MS
            },
            // toggle play/pause on the current track
            (Some(FunctionKey::FN1), None, Some(NavKey::BACK), None) => {
                let track = self.track_mut(cur);
                track.toggle_pause();
                proof {
                    lemma_wf_after_update(pre, cur as int, spec_toggle_pause(t0));
                    assert(self@ =~= SequencerModel {
                        tracks: pre.tracks.update(cur as int, spec_toggle_pause(t0)),
                        ..pre
                    });
                }
                KEYBOARD_KEY_PRESS_DELAY_MS
            },
            // clear the current track's pattern
            (Some(FunctionKey::FN2), Some(ModifierKey::SHIFT), None, None) => {
                let track = self.track_mut(cur);
                track.clear();
                proof {
                    lemma_wf_after_update(pre, cur as int, spec_clear(t0));
                    assert(self@ =~= SequencerModel {
                        tracks: pre.tracks.update(cur as int, spec_clear(t0)),
                        ..pre
                    });
                }
                KEYBOARD_KEY_PRESS_DELAY_MS
            },
            // select the previous track
            (None, Some(ModifierKey::SHIFT), Some(NavKey::BACK), None) => {
                self.current_track = if cur > 0 {
                    cur - 1
                } else {
                    TRACKS_COUNT - 1
                };
                proof {
                    assert(self@ =~= SequencerModel {
                        current_track: self.current_track as int,
                        ..pre
                    });
                }
                KEYBOARD_KEY_PRESS_DELAY_MS
            },
            // switch to the track the code key names
            (Some(FunctionKey::FN1), None, None, Some(code)) => {
                if let Some(step) = keyboard.match_step(code) {
                    if step < TRACKS_COUNT {
                        self.current_track = step;
                    }
                }
                proof {
                    assert(self@ =~= SequencerModel {
                        current_track: self.current_track as int,
                        ..pre
                    });
                }
                KEYBOARD_KEY_PRESS_DELAY_MS
            },
            // randomize the current track
            (Some(FunctionKey::FN2), None, None, Some(code)) => {
                if let Some(step) = keyboard.match_step(code) {
                    if step <= STEPS_COUNT {
                        let track = self.track_mut(cur);
                        track.randomize(step as u8);
                        proof {
                            lemma_wf_after_update(pre, cur as int, final(track)@);
                        }
                    }
                }
                KEYBOARD_KEY_PRESS_DELAY_MS
            },
            // a bare code key: record a note or toggle a step
            (None, None, None, Some(code)) => {
                let track = self.track_mut(cur);
                match track.get_mode() {
                    TrackMode::CV => {
                        if let Some(note) = keyboard.match_note(code) {
                            track.record_note(note);
                        }
                        proof {
                            lemma_wf_after_update(
                                pre,
                                cur as int,
                                spec_record_note(t0, spec_match_note(code)),
                            );
                            assert(self@ =~= SequencerModel {
                                tracks: pre.tracks.update(
                                    cur as int,
                                    spec_record_note(t0, spec_match_note(code)),
                                ),
                                ..pre
                            });
                        }
                    },
                    TrackMode::GATE => {
                        let length = track.get_track_length();
                        let mut toggled = false;
                        let ghost mut step_idx: int = 0;
                        if let Some(step) = keyboard.match_step(code) {
                            if step < length {
                                track.toggle_step(step);
                                toggled = true;
                                proof {
                                    step_idx = step as int;
                                }
                            }
                        }
                        proof {
                            if toggled {
                                lemma_wf_after_update(
                                    pre,
                                    cur as int,
                                    spec_toggle_step(t0, step_idx),
                                );
                                assert(self@ =~= SequencerModel {
                                    tracks: pre.tracks.update(
                                        cur as int,
                                        spec_toggle_step(t0, step_idx),
                                    ),
                                    ..pre
                                });
                            } else {
                                assert(self@ =~= pre);
                            }
                        }
                    },
                }
                KEYBOARD_KEY_PRESS_DELAY_MS
            },
            // an unmatched chord is a no-op with the longer idle re-arm
            (_, _, _, _) => KEYBOARD_REFRESH_MS,
        }
    }
}

/// The status frame shown for a GATE-mode track: every step whose gate is
/// on lights in gate color, overlaid by the active track's swatch on
/// the FN1 light, the mode color on the SHIFT light and the clock color on
/// the current step's light.
pub open spec fn spec_gate_frame(m: TrackModel, cur: int) -> Seq<Color> {
    Seq::new(
        LED_COUNT as nat,
        |j: int|
            if j == spec_key_led(Key::FunctionKey(FunctionKey::FN1)) {
                spec_active_track_color(cur)
            } else if j == spec_key_led(Key::ModifierKey(ModifierKey::SHIFT)) {
                spec_mode_color(m.mode)
            } else if j == spec_step_led(m.cursor) {
                spec_clock_color()
            } else if 8 <= j < 8 + STEPS_COUNT && m.pattern[j - 8].gate == Gate::ON {
                spec_gate_color()
            } else {
                spec_off_color()
            },
    )
}

/// The status frame shown for a CV-mode track: while playing, the current
/// step's note on that note's light; while paused, each already-recorded
/// note on its step's light up to the recording cursor; in both cases
/// overlaid by the active track's swatch, the mode color and the clock.
pub open spec fn spec_cv_frame(m: TrackModel, cur: int) -> Seq<Color> {
    Seq::new(
        LED_COUNT as nat,
        |j: int|
            if j == spec_key_led(Key::FunctionKey(FunctionKey::FN1)) {
                spec_active_track_color(cur)
            } else if j == spec_key_led(Key::ModifierKey(ModifierKey::SHIFT)) {
                spec_mode_color(m.mode)
            } else if j == spec_step_led(m.cursor) {
                spec_clock_color()
            } else if m.playing && j == spec_note_led(m.pattern[m.cursor].note) {
                spec_note_color(m.pattern[m.cursor].note)
            } else if !m.playing && 8 <= j < 8 + m.cursor {
                spec_note_color(m.pattern[j - 8].note)
            } else {
                spec_off_color()
            },
    )
}

/// Compose the frame for a GATE-mode track into the light buffer.
pub fn gate_recording(led_driver: &mut LedDriver, track: &mut Track, current_track: usize)
    requires
        old(led_driver).wf(),
        old(track)@.wf(),
        current_track < TRACKS_COUNT,
    ensures
        *final(track) == *old(track),
        final(led_driver).wf(),
        final(led_driver)@ == spec_gate_frame(old(track)@, current_track as int),
{
    led_driver.clear();

    // light every step whose gate is on
    let length = track.get_track_length();
    let mut step: usize = 0;
    while step < length
        invariant
            old(track)@.wf(),
            *track == *old(track),
            length == STEPS_COUNT,
            step <= STEPS_COUNT,
            led_driver.wf(),
            forall|j: int|
                0 <= j < LED_COUNT ==> (#[trigger] led_driver@[j]) == (if 8 <= j < 8 + step
                    && old(track)@.pattern[j - 8].gate == Gate::ON {
                    spec_gate_color()
                } else {
                    spec_off_color()
                }),
        decreases STEPS_COUNT - step,
    {
        if track.get_gate(step) == Gate::ON {
            led_driver.set_gate_on(step);
        }
        step = step + 1;
    }

    led_driver.set_active_track(current_track);
    led_driver.set_track_mode(track.get_mode());
    led_driver.set_clock(track.get_cursor());
    proof {
        assert(led_driver@ =~= spec_gate_frame(old(track)@, current_track as int));
    }
}

/// Compose the frame for a CV-mode track into the light buffer.
pub fn cv_recording(led_driver: &mut LedDriver, track: &mut Track, current_track: usize)
    requires
        old(led_driver).wf(),
        old(track)@.wf(),
        current_track < TRACKS_COUNT,
    ensures
        *final(track) == *old(track),
        final(led_driver).wf(),
        final(led_driver)@ == spec_cv_frame(old(track)@, current_track as int),
{
    led_driver.clear();

    if track.is_playing() {
        // show the note under the playback cursor
        let n = track.get_current_note();
        led_driver.set_note(n);
    } else {
        // show the notes recorded so far, up to the recording cursor
        let cursor = track.get_cursor();
        let mut step: usize = 0;
        while step < cursor
            invariant
                old(track)@.wf(),
                *track == *old(track),
                cursor == old(track)@.cursor,
                cursor < STEPS_COUNT,
                step <= cursor,
                led_driver.wf(),
                forall|j: int|
                    0 <= j < LED_COUNT ==> (#[trigger] led_driver@[j]) == (if 8 <= j < 8 + step {
                        spec_note_color(old(track)@.pattern[j - 8].note)
                    } else {
                        spec_off_color()
                    }),
            decreases cursor - step,
        {
            let n = track.get_note(step);
            led_driver.set_recording_position(step, n);
            step = step + 1;
        }
    }

    led_driver.set_active_track(current_track);
    led_driver.set_track_mode(track.get_mode());
    led_driver.set_clock(track.get_cursor());
    proof {
        assert(led_driver@ =~= spec_cv_frame(old(track)@, current_track as int));
    }
}

impl Sequencer {
    /// Compose the status frame for the selected track: the CV layout when
    /// it records notes, and otherwise in GATE layout.  The caller pushes the
    /// finished frame to the display in one piece.
    pub fn led_ctrl(&mut self, led_driver: &mut LedDriver)
        requires
            old(self)@.wf(),
            old(led_driver).wf(),
        ensures
            final(self)@ == old(self)@,
            final(led_driver).wf(),
            final(led_driver)@ == (if old(self)@.tracks[old(self)@.current_track].mode
                == TrackMode::CV {
                spec_cv_frame(
                    old(self)@.tracks[old(self)@.current_track],
                    old(self)@.current_track,
                )
            } else {
                spec_gate_frame(
                    old(self)@.tracks[old(self)@.current_track],
                    old(self)@.current_track,
                )
            }),
    {
        let cur = self.current_track;
        let track = vec_at_mut(&mut self.tracks, cur);
        proof {
            assert(track@ == old(self)@.tracks[cur as int]);
        }
        match track.get_mode() {
            TrackMode::CV => cv_recording(led_driver, track, cur),
            TrackMode::GATE => gate_recording(led_driver, track, cur),
        }
        proof {
            assert(self@.tracks =~= old(self)@.tracks);
            assert(self@ =~= old(self)@);
        }
    }
}

/// The deadline the tick chain reaches after `n` re-arms from `start`,
/// each computed from the previous deadline.
pub open spec fn spec_chain_deadline(start: int, n: nat) -> int
    decreases n,
{
    if n == 0 {
        start
    } else {
        spec_chain_deadline(start, (n - 1) as nat) + STEP_LENGTH_US
    }
}

/// The tick chain does not drift: after `n` re-arms the deadline is exactly
/// the first deadline plus `n` whole step lengths.
pub proof fn lemma_tick_chain_no_drift(start: int, n: nat)
    ensures
        spec_chain_deadline(start, n) == start + n * STEP_LENGTH_US,
    decreases n,
{
    if n > 0 {
        lemma_tick_chain_no_drift(start, (n - 1) as nat);
        assert(n * STEP_LENGTH_US == (n - 1) * STEP_LENGTH_US + STEP_LENGTH_US)
            by (nonlinear_arith);
    }
}

} // verus!
