//! Recording core of a voice-dictation daemon.
//!
//! Audio samples travel through the crate as the bit patterns of IEEE-754
//! single-precision numbers (`u32`), so that every rule about them can be
//! stated and proved over integers.

pub mod audio;
pub mod config;
pub mod messages;
pub mod services;
pub mod shortcuts;
pub mod text;
pub mod text_injection;
pub mod text_processing;
pub mod transcription;
