//! Lossless PNG shrinking core.
//!
//! The library drives a fixed pipeline of external compression engines over
//! one file at a time, verifies after every engine step that no pixel
//! changed, and keeps a result only when it is strictly smaller. The file
//! contents are modelled as byte vectors; the caller performs the actual
//! file and process I/O and feeds each engine's output back in.

pub mod decode;
pub mod engines;
pub mod outcome;
pub mod schedule;
pub mod task;
