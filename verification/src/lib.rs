//! Core logic of a desktop installer/launcher back end.
//!
//! The crate covers the parts of the application with real state and
//! consistency obligations: normalization of the installation path, the
//! shared installation configuration, dispatch of symbolic commands to
//! long-running capabilities, process-invocation records, and the event
//! model for streamed subprocess output. All I/O (registry, filesystem,
//! network, process spawning, event delivery) stays outside; callers hand
//! in plain values and receive plain values back.

pub mod config;
pub mod dispatch;
pub mod events;
pub mod install;
pub mod listing;
pub mod locale;
pub mod paths;
pub mod process;
pub mod remote;
pub mod text;
