//! Fixed configuration of the sequencer: pattern and track counts, light
//! count, tempo and the scheduling periods.  None of these are runtime
//! configurable.

use vstd::prelude::*;

verus! {

/// Number of steps in every track's pattern.
pub const STEPS_COUNT: usize = 8;

/// Number of tracks.
pub const TRACKS_COUNT: usize = 8;

/// Number of lights in the status display.
pub const LED_COUNT: usize = 18;

/// Number of keys in the scan matrix (6 rows by 3 columns).
pub const KEYBOARD_KEY_COUNT: usize = 18;

/// Debounce delay after a chord fired an action, in milliseconds.
pub const KEYBOARD_KEY_PRESS_DELAY_MS: u64 = 250;

/// Idle poll interval when no chord fired, in milliseconds.
pub const KEYBOARD_REFRESH_MS: u64 = 50;

/// Refresh period of the light display, in milliseconds.
pub const LED_REFRESH_MS: u64 = 100;

/// Musical tempo in beats per minute.
pub const BPM: u64 = 120;

/// Length of one step of playback, in microseconds.
pub const STEP_LENGTH_US: u64 = 60_000_000 / BPM;

/// Time a GATE-mode output stays high after a tick, in microseconds:
/// half of a step (duty fraction one half).
pub const GATE_LENGTH_US: u64 = STEP_LENGTH_US / 2;

} // verus!
