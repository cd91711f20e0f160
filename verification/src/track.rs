//! One pattern lane of the sequencer: eight steps, a playback cursor, a
//! playing flag, a GATE/CV output mode and a per-track random seed.
//!
//! Every mutation is specified as a transition on [`TrackModel`], the
//! mathematical view of a track; the laws at the end of the module state
//! the cyclic behaviour of playback and recording.

use vstd::prelude::*;

use crate::constants::STEPS_COUNT;
use crate::rng::rng_from_seed;
use crate::rng::rng_gen_flag;
use crate::rng::rng_next_u64;
use crate::rng::rng_note_index;

verus! {

/// Output mode of a track: a binary trigger per step, or a quantized
/// pitch voltage per step.
#[derive(Copy, Clone, PartialEq, Eq, Structural, Debug)]
pub enum TrackMode {
    GATE,
    CV,
}

/// Gate state of one step.
#[derive(Copy, Clone, PartialEq, Eq, Structural, Debug)]
pub enum Gate {
    ON,
    OFF,
}

/// Pitch-class label of one step.
#[derive(Copy, Clone, PartialEq, Eq, Structural, Debug)]
pub enum Note {
    A,
    Ab,
    B,
    Bb,
    C,
    D,
    Db,
    E,
    Eb,
    F,
    G,
    Gb,
}

/// One pattern slot: a gate flag, a note, an octave and a velocity.
#[derive(Copy, Clone, PartialEq, Eq, Structural, Debug)]
pub struct Step {
    pub gate: Gate,
    pub note: Note,
    pub octave: i8,
    pub velocity: u8,
}

/// The mathematical view of a [`Track`].
#[verifier::ext_equal]
pub ghost struct TrackModel {
    pub cursor: int,
    pub pattern: Seq<Step>,
    pub playing: bool,
    pub mode: TrackMode,
    pub seed: u64,
}

impl TrackModel {
    /// A track is well formed when its pattern has exactly `STEPS_COUNT`
    /// steps and its cursor lies inside the pattern.
    pub open spec fn wf(self) -> bool {
        &&& self.pattern.len() == STEPS_COUNT
        &&& 0 <= self.cursor < STEPS_COUNT
    }
}

/// The step every pattern slot starts from: gate off, note C, full velocity.
pub open spec fn spec_default_step() -> Step {
    Step { gate: Gate::OFF, note: Note::C, octave: 0, velocity: 255 }
}

/// A freshly created track: cursor at the start, playing, in GATE mode,
/// seed zero, all steps default.
pub open spec fn spec_new_track() -> TrackModel {
    TrackModel {
        cursor: 0,
        pattern: Seq::new(STEPS_COUNT as nat, |i: int| spec_default_step()),
        playing: true,
        mode: TrackMode::GATE,
        seed: 0,
    }
}

/// The opposite gate value.
pub open spec fn spec_flip_gate(g: Gate) -> Gate {
    if g == Gate::ON {
        Gate::OFF
    } else {
        Gate::ON
    }
}

/// Stop: clear the playing flag and reset the cursor to the start.
pub open spec fn spec_stop(m: TrackModel) -> TrackModel {
    TrackModel { playing: false, cursor: 0, ..m }
}

/// Play: set the playing flag; the cursor stays where it is.
pub open spec fn spec_play(m: TrackModel) -> TrackModel {
    TrackModel { playing: true, ..m }
}

/// Reset: move the cursor to the start.
pub open spec fn spec_reset(m: TrackModel) -> TrackModel {
    TrackModel { cursor: 0, ..m }
}

/// Set the output mode.  Switching to CV also stops playback (a mode
/// switch is not a pure setter); switching to GATE only sets the mode.
pub open spec fn spec_set_mode(m: TrackModel, mode: TrackMode) -> TrackModel {
    if mode == TrackMode::CV {
        TrackModel { mode: mode, ..spec_stop(m) }
    } else {
        TrackModel { mode: mode, ..m }
    }
}

/// Alternate between GATE and CV through `spec_set_mode`.
pub open spec fn spec_toggle_mode(m: TrackModel) -> TrackModel {
    if m.mode == TrackMode::GATE {
        spec_set_mode(m, TrackMode::CV)
    } else {
        spec_set_mode(m, TrackMode::GATE)
    }
}

/// Advance playback by one step: a no-op when not playing, otherwise the
/// cursor moves forward by one and wraps to the start after the last step.
pub open spec fn spec_tick(m: TrackModel) -> TrackModel {
    if !m.playing {
        m
    } else if m.cursor < STEPS_COUNT - 1 {
        TrackModel { cursor: m.cursor + 1, ..m }
    } else {
        spec_reset(m)
    }
}

/// Flip step `i`'s gate flag.
pub open spec fn spec_toggle_step(m: TrackModel, i: int) -> TrackModel {
    let s = m.pattern[i];
    TrackModel { pattern: m.pattern.update(i, Step { gate: spec_flip_gate(s.gate), ..s }), ..m }
}

/// Set step `i`'s gate flag.
pub open spec fn spec_set_gate(m: TrackModel, i: int, g: Gate) -> TrackModel {
    let s = m.pattern[i];
    TrackModel { pattern: m.pattern.update(i, Step { gate: g, ..s }), ..m }
}

/// Set the note of step `i`.
pub open spec fn spec_set_note(m: TrackModel, i: int, note: Note) -> TrackModel {
    let s = m.pattern[i];
    TrackModel { pattern: m.pattern.update(i, Step { note: note, ..s }), ..m }
}

/// Record `note` at the cursor: the step under the cursor takes the note
/// and its gate turns on, then the cursor advances by one; completing the
/// loop wraps the cursor to the start and resumes playback.
pub open spec fn spec_record_note(m: TrackModel, note: Note) -> TrackModel {
    let s = m.pattern[m.cursor];
    let p = m.pattern.update(m.cursor, Step { note: note, gate: Gate::ON, ..s });
    if m.cursor < STEPS_COUNT - 1 {
        TrackModel { pattern: p, cursor: m.cursor + 1, ..m }
    } else {
        TrackModel { pattern: p, cursor: 0, playing: true, ..m }
    }
}

/// Clear the pattern: every gate off, every note back to C; octaves and
/// velocities keep their values.
pub open spec fn spec_clear(m: TrackModel) -> TrackModel {
    TrackModel {
        pattern: Seq::new(
            m.pattern.len(),
            |i: int| Step { gate: Gate::OFF, note: Note::C, ..m.pattern[i] },
        ),
        ..m
    }
}

/// The note a random draw below 12 stands for.
pub open spec fn spec_note_from_index(i: u8) -> Note {
    if i == 0 {
        Note::A
    } else if i == 1 {
        Note::Ab
    } else if i == 2 {
        Note::B
    } else if i == 3 {
        Note::Bb
    } else if i == 4 {
        Note::C
    } else if i == 5 {
        Note::D
    } else if i == 6 {
        Note::Db
    } else if i == 7 {
        Note::E
    } else if i == 8 {
        Note::Eb
    } else if i == 9 {
        Note::F
    } else if i == 10 {
        Note::G
    } else {
        Note::Gb
    }
}

/// Which gate value a random flag stands for.
pub open spec fn spec_gate_from_flag(b: bool) -> Gate {
    if b {
        Gate::ON
    } else {
        Gate::OFF
    }
}

/// The track after randomization: the given seed is stored, and step `i`
/// takes the note of draw `notes[i]` and flag `flags[i]`'s gate value;
/// cursor, playing flag, mode, octaves and velocities keep their values.
pub open spec fn spec_randomized(
    m: TrackModel,
    seed: u64,
    notes: Seq<u8>,
    flags: Seq<bool>,
) -> TrackModel {
    TrackModel {
        seed: seed,
        pattern: Seq::new(
            m.pattern.len(),
            |i: int| Step {
                note: spec_note_from_index(notes[i]),
                gate: spec_gate_from_flag(flags[i]),
                ..m.pattern[i]
            },
        ),
        ..m
    }
}

/// Toggle between playing and stopped (stop resets the cursor).
pub open spec fn spec_toggle_play(m: TrackModel) -> TrackModel {
    if m.playing {
        spec_stop(m)
    } else {
        spec_play(m)
    }
}

/// Toggle between playing and paused (pause leaves the cursor in place).
pub open spec fn spec_toggle_pause(m: TrackModel) -> TrackModel {
    TrackModel { playing: !m.playing, ..m }
}

/// The note a random draw below 12 stands for.
pub fn note_from_index(i: u8) -> (n: Note)
    requires
        i < 12,
    ensures
        n == spec_note_from_index(i),
{
    match i {
        0 => Note::A,
        1 => Note::Ab,
        2 => Note::B,
        3 => Note::Bb,
        4 => Note::C,
        5 => Note::D,
        6 => Note::Db,
        7 => Note::E,
        8 => Note::Eb,
        9 => Note::F,
        10 => Note::G,
        _ => Note::Gb,
    }
}

/// Which gate value a random flag stands for.
pub fn gate_from_flag(b: bool) -> (g: Gate)
    ensures
        g == spec_gate_from_flag(b),
{
    if b {
        Gate::ON
    } else {
        Gate::OFF
    }
}

/// One pattern lane with its playback state.
#[derive(Debug)]
pub struct Track {
    cursor: usize,
    pattern: Vec<Step>,
    play: bool,
    mode: TrackMode,
    seed: u64,
}

impl View for Track {
    type V = TrackModel;

    closed spec fn view(&self) -> TrackModel {
        TrackModel {
            cursor: self.cursor as int,
            pattern: self.pattern@,
            playing: self.play,
            mode: self.mode,
            seed: self.seed,
        }
    }
}

impl Track {
    pub fn new() -> (t: Track)
        ensures
            t@ == spec_new_track(),
            t@.wf(),
    {
        let mut pattern: Vec<Step> = Vec::new();
        let mut i: usize = 0;
        while i < STEPS_COUNT
            invariant
                i <= STEPS_COUNT,
                pattern@.len() == i,
                forall|j: int| 0 <= j < i ==> pattern@[j] == spec_default_step(),
            decreases STEPS_COUNT - i,
        {
            pattern.push(Step { gate: Gate::OFF, note: Note::C, octave: 0, velocity: 255 });
            i = i + 1;
        }
        let t = Track { cursor: 0, pattern, play: true, mode: TrackMode::GATE, seed: 0 };
        proof {
            assert(t@.pattern =~= spec_new_track().pattern);
            assert(t@ =~= spec_new_track());
        }
        t
    }

    pub fn get_track_length(&mut self) -> (r: usize)
        requires
            old(self)@.wf(),
        ensures
            *final(self) == *old(self),
            r == STEPS_COUNT,
    {
        self.pattern.len()
    }

    pub fn get_gate(&mut self, index: usize) -> (g: Gate)
        requires
            old(self)@.wf(),
            index < STEPS_COUNT,
        ensures
            *final(self) == *old(self),
            g == old(self)@.pattern[index as int].gate,
    {
        self.pattern[index].gate
    }

    pub fn get_current_gate(&mut self) -> (g: Gate)
        requires
            old(self)@.wf(),
        ensures
            *final(self) == *old(self),
            g == old(self)@.pattern[old(self)@.cursor].gate,
    {
        self.pattern[self.cursor].gate
    }

    pub fn get_note(&mut self, index: usize) -> (n: Note)
        requires
            old(self)@.wf(),
            index < STEPS_COUNT,
        ensures
            *final(self) == *old(self),
            n == old(self)@.pattern[index as int].note,
    {
        self.pattern[index].note
    }

    pub fn get_current_note(&mut self) -> (n: Note)
        requires
            old(self)@.wf(),
        ensures
            *final(self) == *old(self),
            n == old(self)@.pattern[old(self)@.cursor].note,
    {
        self.pattern[self.cursor].note
    }

    pub fn get_cursor(&mut self) -> (c: usize)
        ensures
            *final(self) == *old(self),
            c == old(self)@.cursor,
    {
        self.cursor
    }

    pub fn get_mode(&mut self) -> (m: TrackMode)
        ensures
            *final(self) == *old(self),
            m == old(self)@.mode,
    {
        self.mode
    }

    pub fn set_mode(&mut self, mode: TrackMode)
        requires
            old(self)@.wf(),
        ensures
            final(self)@ == spec_set_mode(old(self)@, mode),
            final(self)@.wf(),
    {
        if mode == TrackMode::CV {
            self.stop();
        }
        self.mode = mode;
    }

    pub fn toggle_mode(&mut self)
        requires
            old(self)@.wf(),
        ensures
            final(self)@ == spec_toggle_mode(old(self)@),
            final(self)@.wf(),
    {
        if self.mode == TrackMode::GATE {
            self.set_mode(TrackMode::CV);
        } else {
            self.set_mode(TrackMode::GATE);
        }
    }

    pub fn record_note(&mut self, note: Note)
        requires
            old(self)@.wf(),
        ensures
            final(self)@ == spec_record_note(old(self)@, note),
            final(self)@.wf(),
    {
        let c = self.cursor;
        let mut s = self.pattern[c];
        s.note = note;
        s.gate = Gate::ON;
        self.pattern.set(c, s);
        if c < STEPS_COUNT - 1 {
            self.cursor = c + 1;
        } else {
            self.cursor = 0;
            self.play();
        }
    }

    pub fn set_gate(&mut self, index: usize, state: Gate)
        requires
            old(self)@.wf(),
            index < STEPS_COUNT,
        ensures
            final(self)@ == spec_set_gate(old(self)@, index as int, state),
            final(self)@.wf(),
    {
        let mut s = self.pattern[index];
        s.gate = state;
        self.pattern.set(index, s);
    }

    pub fn toggle_step(&mut self, index: usize)
        requires
            old(self)@.wf(),
            index < STEPS_COUNT,
        ensures
            final(self)@ == spec_toggle_step(old(self)@, index as int),
            final(self)@.wf(),
    {
        let mut s = self.pattern[index];
        if s.gate == Gate::ON {
            s.gate = Gate::OFF;
        } else {
            s.gate = Gate::ON;
        }
        self.pattern.set(index, s);
    }

    pub fn set_note(&mut self, index: usize, note: Note)
        requires
            old(self)@.wf(),
            index < STEPS_COUNT,
        ensures
            final(self)@ == spec_set_note(old(self)@, index as int, note),
            final(self)@.wf(),
    {
        let mut s = self.pattern[index];
        s.note = note;
        self.pattern.set(index, s);
    }

    pub fn tick(&mut self)
        requires
            old(self)@.wf(),
        ensures
            final(self)@ == spec_tick(old(self)@),
            final(self)@.wf(),
    {
        if !self.play {
            return;
        }
        if self.cursor < STEPS_COUNT - 1 {
            self.cursor = self.cursor + 1;
        } else {
            self.reset();
        }
    }

    /// Reseed the generator from the stored seed, store a freshly drawn
    /// seed, and regenerate every step's note and gate from the generator.
    /// The probability argument is accepted but does not bias the draw:
    /// every step is regenerated regardless of its value.
    pub fn randomize(&mut self, _probability: u8)
        requires
            old(self)@.wf(),
        ensures
            final(self)@.wf(),
            final(self)@.cursor == old(self)@.cursor,
            final(self)@.playing == old(self)@.playing,
            final(self)@.mode == old(self)@.mode,
            final(self)@.pattern.len() == old(self)@.pattern.len(),
            forall|i: int|
                0 <= i < STEPS_COUNT ==> {
                    &&& (#[trigger] final(self)@.pattern[i]).octave == old(self)@.pattern[i].octave
                    &&& final(self)@.pattern[i].velocity == old(self)@.pattern[i].velocity
                },
    {
        let mut rng = rng_from_seed(self.seed);
        self.seed = rng_next_u64(&mut rng);

        let mut note_draws: Vec<u8> = Vec::new();
        let mut gate_draws: Vec<bool> = Vec::new();
        let mut i: usize = 0;
        while i < STEPS_COUNT
            invariant
                i <= STEPS_COUNT,
                note_draws@.len() == i,
                gate_draws@.len() == i,
                forall|j: int| 0 <= j < i ==> note_draws@[j] < 12,
            decreases STEPS_COUNT - i,
        {
            note_draws.push(rng_note_index(&mut rng));
            gate_draws.push(rng_gen_flag(&mut rng));
            i = i + 1;
        }

        let seed = self.seed;
        self.apply_random_pattern(seed, &note_draws, &gate_draws);
    }

    /// The deterministic half of randomization: store `seed` and rewrite
    /// every step from the given draws.  Identical draws give identical
    /// patterns, whatever generator produced them.
    pub fn apply_random_pattern(&mut self, seed: u64, note_draws: &Vec<u8>, gate_draws: &Vec<bool>)
        requires
            old(self)@.wf(),
            note_draws@.len() == STEPS_COUNT,
            gate_draws@.len() == STEPS_COUNT,
            forall|i: int| 0 <= i < STEPS_COUNT ==> note_draws@[i] < 12,
        ensures
            final(self)@ == spec_randomized(old(self)@, seed, note_draws@, gate_draws@),
            final(self)@.wf(),
    {
        self.seed = seed;
        let mut i: usize = 0;
        while i < STEPS_COUNT
            invariant
                old(self)@.wf(),
                note_draws@.len() == STEPS_COUNT,
                gate_draws@.len() == STEPS_COUNT,
                forall|j: int| 0 <= j < STEPS_COUNT ==> note_draws@[j] < 12,
                i <= STEPS_COUNT,
                self.pattern@.len() == STEPS_COUNT,
                self.cursor == old(self).cursor,
                self.play == old(self).play,
                self.mode == old(self).mode,
                self.seed == seed,
                forall|j: int|
                    0 <= j < i ==> self.pattern@[j] == #[trigger] spec_randomized(
                        old(self)@,
                        seed,
                        note_draws@,
                        gate_draws@,
                    ).pattern[j],
                forall|j: int| i <= j < STEPS_COUNT ==> self.pattern@[j] == old(self)@.pattern[j],
            decreases STEPS_COUNT - i,
        {
            let mut s = self.pattern[i];
            s.note = note_from_index(note_draws[i]);
            s.gate = gate_from_flag(gate_draws[i]);
            self.pattern.set(i, s);
            i = i + 1;
        }
        proof {
            let want = spec_randomized(old(self)@, seed, note_draws@, gate_draws@);
            assert(self@.pattern =~= want.pattern);
            assert(self@ =~= want);
        }
    }

    pub fn clear(&mut self)
        requires
            old(self)@.wf(),
        ensures
            final(self)@ == spec_clear(old(self)@),
            final(self)@.wf(),
    {
        let mut i: usize = 0;
        while i < STEPS_COUNT
            invariant
                old(self)@.wf(),
                i <= STEPS_COUNT,
                self.pattern@.len() == STEPS_COUNT,
                self.cursor == old(self).cursor,
                self.play == old(self).play,
                self.mode == old(self).mode,
                self.seed == old(self).seed,
                forall|j: int| 0 <= j < i ==> self.pattern@[j] == #[trigger] spec_clear(
                    old(self)@,
                ).pattern[j],
                forall|j: int| i <= j < STEPS_COUNT ==> self.pattern@[j] == old(self)@.pattern[j],
            decreases STEPS_COUNT - i,
        {
            let mut s = self.pattern[i];
            s.gate = Gate::OFF;
            s.note = Note::C;
            self.pattern.set(i, s);
            i = i + 1;
        }
        proof {
            assert(self@.pattern =~= spec_clear(old(self)@).pattern);
            assert(self@ =~= spec_clear(old(self)@));
        }
    }

    pub fn reset(&mut self)
        ensures
            final(self)@ == spec_reset(old(self)@),
    {
        self.cursor = 0;
    }

    pub fn play(&mut self)
        ensures
            final(self)@ == spec_play(old(self)@),
    {
        self.play = true;
    }

    pub fn toggle_play(&mut self)
        ensures
            final(self)@ == spec_toggle_play(old(self)@),
    {
        if self.is_playing() {
            self.stop();
        } else {
            self.play();
        }
    }

    pub fn stop(&mut self)
        ensures
            final(self)@ == spec_stop(old(self)@),
    {
        self.play = false;
        self.reset();
    }

    pub fn toggle_pause(&mut self)
        ensures
            final(self)@ == spec_toggle_pause(old(self)@),
    {
        if self.is_playing() {
            self.play = false;
        } else {
            self.play = true;
        }
    }

    pub fn is_playing(&mut self) -> (p: bool)
        ensures
            *final(self) == *old(self),
            p == old(self)@.playing,
    {
        self.play
    }
}

/// `n` successive playback ticks.
pub open spec fn spec_tick_n(m: TrackModel, n: nat) -> TrackModel
    decreases n,
{
    if n == 0 {
        m
    } else {
        spec_tick(spec_tick_n(m, (n - 1) as nat))
    }
}

/// Recording the notes of `notes`, one after the other.
pub open spec fn spec_record_notes(m: TrackModel, notes: Seq<Note>) -> TrackModel
    decreases notes.len(),
{
    if notes.len() == 0 {
        m
    } else {
        spec_record_notes(spec_record_note(m, notes[0]), notes.drop_first())
    }
}

/// Toggling a step twice restores the track exactly: `spec_toggle_step`
/// is an involution on well-formed tracks.
pub proof fn lemma_toggle_step_involution(m: TrackModel, i: int)
    requires
        m.wf(),
        0 <= i < STEPS_COUNT,
    ensures
        spec_toggle_step(spec_toggle_step(m, i), i) == m,
{
    let m2 = spec_toggle_step(spec_toggle_step(m, i), i);
    assert(m2.pattern =~= m.pattern);
    assert(m2 =~= m);
}

/// A tick on a track that is not playing changes nothing.
pub proof fn lemma_tick_stopped(m: TrackModel)
    requires
        !m.playing,
    ensures
        spec_tick(m) == m,
{
}

/// While playing, `n` ticks move the cursor to its start plus `n`, modulo
/// the pattern length, and change nothing else.
pub proof fn lemma_tick_n_cursor(m: TrackModel, n: nat)
    requires
        m.wf(),
        m.playing,
    ensures
        spec_tick_n(m, n) == (TrackModel {
            cursor: (m.cursor + n) % (STEPS_COUNT as int),
            ..m
        }),
    decreases n,
{
    if n == 0 {
        assert(spec_tick_n(m, 0) =~= TrackModel { cursor: m.cursor % (STEPS_COUNT as int), ..m });
    } else {
        lemma_tick_n_cursor(m, (n - 1) as nat);
        assert(spec_tick_n(m, n) =~= TrackModel {
            cursor: (m.cursor + n) % (STEPS_COUNT as int),
            ..m
        });
    }
}

/// Ticking exactly one full pattern length returns the cursor to where it
/// started; in fact it restores the whole track.
pub proof fn lemma_tick_full_cycle(m: TrackModel)
    requires
        m.wf(),
        m.playing,
    ensures
        spec_tick_n(m, STEPS_COUNT as nat).cursor == m.cursor,
        spec_tick_n(m, STEPS_COUNT as nat) == m,
{
    lemma_tick_n_cursor(m, STEPS_COUNT as nat);
    assert(spec_tick_n(m, STEPS_COUNT as nat) =~= m);
}

/// Recording enough notes to reach the end of the pattern wraps the cursor
/// to the start and resumes playback.
proof fn lemma_record_to_end(m: TrackModel, notes: Seq<Note>)
    requires
        m.wf(),
        notes.len() >= 1,
        m.cursor + notes.len() == STEPS_COUNT,
    ensures
        spec_record_notes(m, notes).wf(),
        spec_record_notes(m, notes).cursor == 0,
        spec_record_notes(m, notes).playing,
    decreases notes.len(),
{
    let m1 = spec_record_note(m, notes[0]);
    if notes.len() == 1 {
        assert(spec_record_notes(m1, notes.drop_first()) == m1);
    } else {
        lemma_record_to_end(m1, notes.drop_first());
    }
}

/// The randomized pattern depends only on the previous pattern and the
/// draws: tracks that agree on their pattern and apply equal draws end
/// with equal patterns and equal seeds, whatever their other state.
pub proof fn lemma_randomized_deterministic(
    m1: TrackModel,
    m2: TrackModel,
    seed: u64,
    notes: Seq<u8>,
    flags: Seq<bool>,
)
    requires
        m1.pattern == m2.pattern,
    ensures
        spec_randomized(m1, seed, notes, flags).pattern == spec_randomized(
            m2,
            seed,
            notes,
            flags,
        ).pattern,
        spec_randomized(m1, seed, notes, flags).seed == spec_randomized(m2, seed, notes, flags).seed,
{
    assert(spec_randomized(m1, seed, notes, flags).pattern =~= spec_randomized(
        m2,
        seed,
        notes,
        flags,
    ).pattern);
}

/// From the start of the pattern, recording one note per step leaves the
/// cursor back at the start with playback on.
pub proof fn lemma_record_full_cycle(m: TrackModel, notes: Seq<Note>)
    requires
        m.wf(),
        m.cursor == 0,
        notes.len() == STEPS_COUNT,
    ensures
        spec_record_notes(m, notes).wf(),
        spec_record_notes(m, notes).cursor == 0,
        spec_record_notes(m, notes).playing,
{
    lemma_record_to_end(m, notes);
}

} // verus!
