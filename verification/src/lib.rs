//! Lifecycle supervision for a single auxiliary backend process.
//!
//! The crate decides which interpreter runs the backend entry script
//! ([`interpreter`]), which file on disk is that script ([`locator`]), and
//! tracks the one child process handle for the lifetime of the application
//! ([`supervisor`]). All environment, filesystem and process I/O stays with
//! the caller: the embedding shell probes the environment and the disk, hands
//! the observations in as plain values, and performs the spawn and the kill
//! that the verified state machine asks for.

pub mod interpreter;
pub mod locator;
pub mod supervisor;
