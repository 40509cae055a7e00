//! Turn-taking core of a hands-free voice assistant.
//!
//! The crate decides when an utterance has ended, whether a reply is
//! suppressed, and in which order the single-flight pipeline
//! (capture, transcribe, dialogue, synthesize, play) runs. Audio devices,
//! speech engines and the dialogue engine stay outside: callers feed the
//! crate plain values and carry out the actions it hands back.
//!
//! Times are milliseconds on a monotonic clock chosen by the caller.

pub mod capture;
pub mod coordinator;
pub mod mute;
pub mod resample;
pub mod text;
pub mod tools;
pub mod trusted;
