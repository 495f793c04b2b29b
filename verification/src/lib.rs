//! Cycle-accurate model of the audio unit of an 8-bit console: a frame
//! sequencer, its tone channels and the buffer that turns their output into
//! samples at the host's rate, with a small CPU core beside it and the
//! console that runs both on one clock.

pub mod components;
pub mod buffer;
pub mod square;
pub mod triangle;
pub mod noise;
pub mod dmc;
pub mod apu;
pub mod laws;
pub mod cpu;
pub mod emulator;
