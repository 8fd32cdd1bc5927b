//! Resolution of game-asset download tasks and the rules by which they are
//! persisted, either to local storage or through a remote upload proxy.
//!
//! The crate performs no input or output itself. Every exchange with the
//! network or the file system is described as a value, carried out by the
//! caller, and its outcome handed back.

pub mod client;
pub mod error;
pub mod fetch_client;
pub mod middleware;
pub mod preludes;
pub mod r2client;
pub mod types;
