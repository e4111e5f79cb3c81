//! Audio capture, buffering and encoding rules.

pub mod capture;
pub mod feedback;
pub mod format;
pub mod sample;
pub mod wav_sink;
