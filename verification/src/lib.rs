//! Core engine of an eight-track, eight-step hardware step sequencer.
//!
//! Each track holds a fixed pattern of eight steps (a gate flag, a note and a
//! velocity), a playback cursor, a playing flag, a GATE/CV output mode and a
//! per-track random seed.  A chorded keyboard drives pattern edits and track
//! selection, a fixed-tempo clock advances playback and times gate and
//! DAC outputs, and a mapper composes an eighteen-light status frame.
//! Device I/O (key-matrix scan, light string, DAC) stays outside: this crate
//! consumes decoded key snapshots and produces light frames and DAC codes.

pub mod constants;
pub mod keyboard;
pub mod led;
mod rng;
pub mod sequencer;
pub mod track;
