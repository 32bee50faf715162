//! A stopwatch core: time accounting under pause and resume, a lap log with
//! a newest-first selection, the mapping from keys to commands, and the text
//! form of a duration. Every instant and duration is a whole number of
//! nanoseconds.

pub mod clock;
pub mod command;
pub mod display;
pub mod format;
pub mod laws;
pub mod list;
pub mod model;
pub mod timer;
