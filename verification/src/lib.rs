//! Core logic of a small local music player: play modes and track
//! navigation, the track list filter, playback clock bookkeeping, the
//! rolling sample window of the spectrum analyzer and text formatting.

pub mod playlist;
pub mod text;
pub mod metadata;
pub mod player;
pub mod analyzer;
pub mod scanner;
pub mod shortcuts;
