//! Core of a harness for testing binaries inside disposable containers.
//!
//! The crate plans every invocation of the container runtime and interprets
//! what the runtime printed, but never starts a process itself: callers run
//! the planned invocations and hand the captured output back.

pub mod builder;
pub mod cache;
pub mod container;
pub mod error;
pub mod history;
pub mod model;
pub mod path;
pub mod process;
pub mod text;
pub mod util;
