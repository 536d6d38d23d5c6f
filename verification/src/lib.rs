//! Control core of a small melody-playing board.
//!
//! A fixed-rate sampler debounces four buttons into one-shot event flags;
//! a cooperative playback controller walks a catalog of tracks note by
//! note, reacting to those flags between notes (pause, resume, wraparound
//! navigation); an indicator handler toggles three intensity channels.
//! Everything that touches hardware (pin reads, PWM writes, delays,
//! low-power waits) is left to the caller: the library computes decisions
//! and actions from plain values.

pub mod music;
pub mod player;
pub mod rgb;
pub mod sampler;
