//! Verified core of a build-and-run supervisor for an external game server.
//!
//! The crate models the pipeline that fetches a revision of the server's
//! source tree, compiles it and runs the produced binary as one cancellable
//! background run.  The decision logic — which stage follows which, which
//! status events a run emits, how the supervisor record reacts to `start`,
//! `stop` and the drained events — lives here and is verified.  The
//! surrounding runtime (process spawning, task scheduling, channels) performs
//! the actions this library decides on and hands the outcomes back in as
//! plain values.

pub mod command;
pub mod files;
pub mod ordered_set;
pub mod pipeline;
pub mod process;
pub mod server;
pub mod settings;
pub mod state;
pub mod status;
