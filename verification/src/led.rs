//! The status-light buffer: eighteen fixed positions.  Positions 0, 6 and 7
//! sit under the function and modifier keys, positions 8 through 15 under
//! the eight step keys, and 16 and 17 under the navigation keys.
//!
//! This module owns the buffer and the position and color tables; pushing a
//! composed frame to the light string is the display collaborator's
//! business and happens outside this crate, one whole frame at a time.

use vstd::prelude::*;

use crate::constants::LED_COUNT;
use crate::constants::STEPS_COUNT;
use crate::constants::TRACKS_COUNT;
use crate::keyboard::CodeKey;
use crate::keyboard::FunctionKey;
use crate::keyboard::Key;
use crate::keyboard::ModifierKey;
use crate::keyboard::NavKey;
use crate::track::Note;
use crate::track::TrackMode;

verus! {

/// One light's color, as the byte triple the display device takes.
#[derive(Copy, Clone, PartialEq, Eq, Structural, Debug)]
pub struct Color {
    pub r: u8,
    pub g: u8,
    pub b: u8,
}

/// All lights off.
pub open spec fn spec_off_color() -> Color {
    Color { r: 0x00, g: 0x00, b: 0x00 }
}

/// The color of a step whose gate is on.
pub open spec fn spec_gate_color() -> Color {
    Color { r: 0x00, g: 0x00, b: 0x10 }
}

/// The color of the current playback position.
pub open spec fn spec_clock_color() -> Color {
    Color { r: 0x00, g: 0x10, b: 0x00 }
}

/// The color the mode indicator shows for each track mode.
pub open spec fn spec_mode_color(mode: TrackMode) -> Color {
    if mode == TrackMode::CV {
        Color { r: 0x10, g: 0x10, b: 0x00 }
    } else {
        Color { r: 0x10, g: 0x00, b: 0x00 }
    }
}

/// The swatch color of each of the eight tracks.
pub open spec fn spec_active_track_color(index: int) -> Color {
    if index == 0 {
        Color { r: 0x00, g: 0x00, b: 0x05 }
    } else if index == 1 {
        Color { r: 0x05, g: 0x00, b: 0x05 }
    } else if index == 2 {
        Color { r: 0x05, g: 0x05, b: 0x05 }
    } else if index == 3 {
        Color { r: 0x00, g: 0x00, b: 0x10 }
    } else if index == 4 {
        Color { r: 0x05, g: 0x00, b: 0x10 }
    } else if index == 5 {
        Color { r: 0x05, g: 0x05, b: 0x10 }
    } else if index == 6 {
        Color { r: 0x10, g: 0x00, b: 0x10 }
    } else {
        Color { r: 0x10, g: 0x05, b: 0x10 }
    }
}

/// The color each note is shown in.
pub open spec fn spec_note_color(note: Note) -> Color {
    match note {
        Note::A => Color { r: 0x00, g: 0x00, b: 0x00 },
        Note::B => Color { r: 0x00, g: 0x01, b: 0x00 },
        Note::C => Color { r: 0x01, g: 0x00, b: 0x00 },
        Note::D => Color { r: 0x01, g: 0x01, b: 0x00 },
        Note::E => Color { r: 0x00, g: 0x00, b: 0x01 },
        Note::F => Color { r: 0x01, g: 0x00, b: 0x01 },
        Note::G => Color { r: 0x01, g: 0x01, b: 0x01 },
        Note::Ab => Color { r: 0x01, g: 0x01, b: 0x01 },
        Note::Bb => Color { r: 0x00, g: 0x00, b: 0x02 },
        Note::Db => Color { r: 0x00, g: 0x01, b: 0x02 },
        Note::Eb => Color { r: 0x01, g: 0x00, b: 0x02 },
        Note::Gb => Color { r: 0x01, g: 0x01, b: 0x02 },
    }
}

/// The light under step key `index`: the step keys sit at positions 8
/// through 15.
pub open spec fn spec_step_led(index: int) -> int {
    index + 8
}

/// The light under each key of the matrix.
pub open spec fn spec_key_led(key: Key) -> int {
    match key {
        Key::FunctionKey(FunctionKey::FN1) => 0,
        Key::FunctionKey(FunctionKey::FN2) => 6,
        Key::ModifierKey(ModifierKey::SHIFT) => 7,
        Key::NavKey(NavKey::BACK) => 16,
        Key::NavKey(NavKey::FORWARD) => 17,
        Key::CodeKey(CodeKey::KEY0) => 8,
        Key::CodeKey(CodeKey::KEY1) => 9,
        Key::CodeKey(CodeKey::KEY2) => 10,
        Key::CodeKey(CodeKey::KEY3) => 11,
        Key::CodeKey(CodeKey::KEY4) => 12,
        Key::CodeKey(CodeKey::KEY5) => 13,
        Key::CodeKey(CodeKey::KEY6) => 14,
        Key::CodeKey(CodeKey::KEY7) => 15,
        Key::CodeKey(CodeKey::KEY8) => 1,
        Key::CodeKey(CodeKey::KEY9) => 2,
        Key::CodeKey(CodeKey::KEY10) => 3,
        Key::CodeKey(CodeKey::KEY11) => 4,
        Key::CodeKey(CodeKey::KEY12) => 5,
    }
}

/// The light that shows each note: the naturals on their step keys, the
/// flats on the top-row keys.
pub open spec fn spec_note_led(note: Note) -> int {
    match note {
        Note::C => 8,
        Note::D => 9,
        Note::E => 10,
        Note::F => 11,
        Note::G => 12,
        Note::A => 13,
        Note::B => 14,
        Note::Db => 1,
        Note::Eb => 2,
        Note::Gb => 3,
        Note::Ab => 4,
        Note::Bb => 5,
    }
}

/// An all-off frame.
pub open spec fn spec_clear_frame() -> Seq<Color> {
    Seq::new(LED_COUNT as nat, |i: int| spec_off_color())
}

/// The color each note is shown in.
pub fn match_note_to_color(note: Note) -> (c: Option<Color>)
    ensures
        c == Some(spec_note_color(note)),
{
    match note {
        Note::A => Some(Color { r: 0x00, g: 0x00, b: 0x00 }),
        Note::B => Some(Color { r: 0x00, g: 0x01, b: 0x00 }),
        Note::C => Some(Color { r: 0x01, g: 0x00, b: 0x00 }),
        Note::D => Some(Color { r: 0x01, g: 0x01, b: 0x00 }),
        Note::E => Some(Color { r: 0x00, g: 0x00, b: 0x01 }),
        Note::F => Some(Color { r: 0x01, g: 0x00, b: 0x01 }),
        Note::G => Some(Color { r: 0x01, g: 0x01, b: 0x01 }),
        Note::Ab => Some(Color { r: 0x01, g: 0x01, b: 0x01 }),
        Note::Bb => Some(Color { r: 0x00, g: 0x00, b: 0x02 }),
        Note::Db => Some(Color { r: 0x00, g: 0x01, b: 0x02 }),
        Note::Eb => Some(Color { r: 0x01, g: 0x00, b: 0x02 }),
        Note::Gb => Some(Color { r: 0x01, g: 0x01, b: 0x02 }),
    }
}

/// The light under step key `index`.
pub fn match_step_to_led(index: usize) -> (led: Option<usize>)
    requires
        index < STEPS_COUNT,
    ensures
        led == Some((index + 8) as usize),
        led.unwrap() == spec_step_led(index as int),
{
    Some(index + 8)
}

/// The light under each key of the matrix.
pub fn match_key_to_led(key: Key) -> (led: Option<usize>)
    ensures
        led is Some,
        led.unwrap() == spec_key_led(key),
        led.unwrap() < LED_COUNT,
{
    match key {
        Key::FunctionKey(FunctionKey::FN1) => Some(0),
        Key::FunctionKey(FunctionKey::FN2) => Some(6),
        Key::ModifierKey(ModifierKey::SHIFT) => Some(7),
        Key::NavKey(NavKey::BACK) => Some(16),
        Key::NavKey(NavKey::FORWARD) => Some(17),
        Key::CodeKey(CodeKey::KEY0) => Some(8),
        Key::CodeKey(CodeKey::KEY1) => Some(9),
        Key::CodeKey(CodeKey::KEY2) => Some(10),
        Key::CodeKey(CodeKey::KEY3) => Some(11),
        Key::CodeKey(CodeKey::KEY4) => Some(12),
        Key::CodeKey(CodeKey::KEY5) => Some(13),
        Key::CodeKey(CodeKey::KEY6) => Some(14),
        Key::CodeKey(CodeKey::KEY7) => Some(15),
        Key::CodeKey(CodeKey::KEY8) => Some(1),
        Key::CodeKey(CodeKey::KEY9) => Some(2),
        Key::CodeKey(CodeKey::KEY10) => Some(3),
        Key::CodeKey(CodeKey::KEY11) => Some(4),
        Key::CodeKey(CodeKey::KEY12) => Some(5),
    }
}

/// The light that shows each note.
pub fn match_note_to_led(note: Note) -> (led: Option<usize>)
    ensures
        led is Some,
        led.unwrap() == spec_note_led(note),
        led.unwrap() < LED_COUNT,
{
    match note {
        Note::C => Some(8),
        Note::D => Some(9),
        Note::E => Some(10),
        Note::F => Some(11),
        Note::G => Some(12),
        Note::A => Some(13),
        Note::B => Some(14),
        Note::Db => Some(1),
        Note::Eb => Some(2),
        Note::Gb => Some(3),
        Note::Ab => Some(4),
        Note::Bb => Some(5),
    }
}

/// The light buffer: one composed frame of `LED_COUNT` colors.
#[derive(Debug)]
pub struct LedDriver {
    pub leds: Vec<Color>,
}

impl View for LedDriver {
    type V = Seq<Color>;

    closed spec fn view(&self) -> Seq<Color> {
        self.leds@
    }
}

impl LedDriver {
    /// The buffer is well formed when it holds exactly one color per light.
    pub open spec fn wf(&self) -> bool {
        self@.len() == LED_COUNT
    }

    /// A fresh buffer with every light off.
    pub fn new() -> (d: LedDriver)
        ensures
            d.wf(),
            d@ == spec_clear_frame(),
    {
        let mut leds: Vec<Color> = Vec::new();
        let mut i: usize = 0;
        while i < LED_COUNT
            invariant
                i <= LED_COUNT,
                leds@.len() == i,
                forall|j: int| 0 <= j < i ==> leds@[j] == spec_off_color(),
            decreases LED_COUNT - i,
        {
            leds.push(Color { r: 0x00, g: 0x00, b: 0x00 });
            i = i + 1;
        }
        let d = LedDriver { leds };
        proof {
            assert(d@ =~= spec_clear_frame());
        }
        d
    }

    /// Show the note recorded at step `index` on that step's light.
    pub fn set_recording_position(&mut self, index: usize, note: Note)
        requires
            old(self).wf(),
            index < STEPS_COUNT,
        ensures
            final(self).wf(),
            final(self)@ == old(self)@.update(spec_step_led(index as int), spec_note_color(note)),
    {
        if let Some(led) = match_step_to_led(index) {
            let c = match_note_to_color(note);
            self.leds.set(led, c.unwrap());
        }
    }

    /// Show `note` on its own light.
    pub fn set_note(&mut self, note: Note)
        requires
            old(self).wf(),
        ensures
            final(self).wf(),
            final(self)@ == old(self)@.update(spec_note_led(note), spec_note_color(note)),
    {
        if let Some(led) = match_note_to_led(note) {
            let c = match_note_to_color(note);
            self.leds.set(led, c.unwrap());
        }
    }

    /// Light step `index` in gate-on color.
    pub fn set_gate_on(&mut self, index: usize)
        requires
            old(self).wf(),
            index < STEPS_COUNT,
        ensures
            final(self).wf(),
            final(self)@ == old(self)@.update(spec_step_led(index as int), spec_gate_color()),
    {
        if let Some(led) = match_step_to_led(index) {
            self.leds.set(led, Color { r: 0x00, g: 0x00, b: 0x10 });
        }
    }

    /// Show the active track's swatch on the FN1 key's light.
    pub fn set_active_track(&mut self, index: usize)
        requires
            old(self).wf(),
            index < TRACKS_COUNT,
        ensures
            final(self).wf(),
            final(self)@ == old(self)@.update(
                spec_key_led(Key::FunctionKey(FunctionKey::FN1)),
                spec_active_track_color(index as int),
            ),
    {
        if let Some(led) = match_key_to_led(Key::FunctionKey(FunctionKey::FN1)) {
            let c = if index == 0 {
                Color { r: 0x00, g: 0x00, b: 0x05 }
            } else if index == 1 {
                Color { r: 0x05, g: 0x00, b: 0x05 }
            } else if index == 2 {
                Color { r: 0x05, g: 0x05, b: 0x05 }
            } else if index == 3 {
                Color { r: 0x00, g: 0x00, b: 0x10 }
            } else if index == 4 {
                Color { r: 0x05, g: 0x00, b: 0x10 }
            } else if index == 5 {
                Color { r: 0x05, g: 0x05, b: 0x10 }
            } else if index == 6 {
                Color { r: 0x10, g: 0x00, b: 0x10 }
            } else {
                Color { r: 0x10, g: 0x05, b: 0x10 }
            };
            self.leds.set(led, c);
        }
    }

    /// Show the current playback position on its step's light.
    pub fn set_clock(&mut self, index: usize)
        requires
            old(self).wf(),
            index < STEPS_COUNT,
        ensures
            final(self).wf(),
            final(self)@ == old(self)@.update(spec_step_led(index as int), spec_clock_color()),
    {
        if let Some(led) = match_step_to_led(index) {
            self.leds.set(led, Color { r: 0x00, g: 0x10, b: 0x00 });
        }
    }

    /// Show the track's mode on the SHIFT key's light.
    pub fn set_track_mode(&mut self, track_mode: TrackMode)
        requires
            old(self).wf(),
        ensures
            final(self).wf(),
            final(self)@ == old(self)@.update(
                spec_key_led(Key::ModifierKey(ModifierKey::SHIFT)),
                spec_mode_color(track_mode),
            ),
    {
        if let Some(led) = match_key_to_led(Key::ModifierKey(ModifierKey::SHIFT)) {
            if track_mode == TrackMode::CV {
                self.leds.set(led, Color { r: 0x10, g: 0x10, b: 0x00 });
            } else {
                self.leds.set(led, Color { r: 0x10, g: 0x00, b: 0x00 });
            }
        }
    }

    /// Switch every light off.
    pub fn clear(&mut self)
        requires
            old(self).wf(),
        ensures
            final(self).wf(),
            final(self)@ == spec_clear_frame(),
    {
        let mut i: usize = 0;
        while i < LED_COUNT
            invariant
                i <= LED_COUNT,
                self@.len() == LED_COUNT,
                forall|j: int| 0 <= j < i ==> self@[j] == spec_off_color(),
            decreases LED_COUNT - i,
        {
            self.leds.set(i, Color { r: 0x00, g: 0x00, b: 0x00 });
            i = i + 1;
        }
        proof {
            assert(self@ =~= spec_clear_frame());
        }
    }
}

} // verus!
