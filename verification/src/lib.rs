//! Voice-activity monitoring core.
//!
//! The crate decides, buffer by buffer, whether somebody is speaking into the
//! selected microphone. It holds the engine's state, computes the peak level
//! of each buffer, compares it with a threshold, lists and locates input
//! devices among the names the audio host reports, and orders the steps of a
//! device switch. Talking to the audio host itself is left to the caller.
//!
//! Sample amplitudes are single-precision numbers. They travel through this
//! crate as their 32-bit patterns, see [`binary32`].
//!
//! - [`binary32`]: what a pattern means, and how patterns compare.
//! - [`level`]: the peak level of a buffer.
//! - [`device`]: the directory of input devices.
//! - [`error`]: the failures that reach the caller.
//! - [`protocol`]: the requests to the audio host and its answers.
//! - [`state`]: the state of the engine, its transitions and what holds of them.
//! - [`monitor`]: the engine itself.

pub mod binary32;
pub mod device;
pub mod error;
pub mod level;
pub mod monitor;
pub mod protocol;
pub mod state;
