//! Core of an ear-training game: a note is drawn at random from a configured
//! range and played on a MIDI output, the player answers on a MIDI input, and
//! the answer is judged.
//!
//! Everything here is free of devices, threads and the console. The pieces
//! that decide are state machines: the caller performs the action that a step
//! hands out and reports what came of it as the next event.

pub mod bridge;
pub mod config;
pub mod console;
pub mod error;
pub mod midi;
pub mod note;
pub mod playback;
pub mod round;
pub mod startup;
pub mod target;

pub use note::note_number_to_sign;
