//! Busy-wait delays timed by a hardware cycle counter.
//!
//! A [`delay::McycleDelay`] is constructed from the core clock frequency and
//! pauses the calling hart for a requested number of microseconds or
//! milliseconds by spinning on the machine-mode cycle counter.

pub mod convert;
pub mod delay;
