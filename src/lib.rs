//! A safe layer over a native speech-recognition engine.
//!
//! The engine is reached through closures that the caller supplies; this
//! crate decides when each of them may run, translates the status codes they
//! return into typed errors, and turns the raw buffers they hand back into
//! owned values.
use vstd::prelude::*;

pub mod error;
pub mod stage;
pub mod status;
pub mod marshal;
pub mod context;
pub mod guarantees;
