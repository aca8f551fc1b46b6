//! Discovery of processes and their modules, handle acquisition decisions and
//! pointer-chain resolution for external introspection of a running process.
//!
//! The operating-system calls themselves are made by the caller; this library
//! decides, from their plain results, what happens next and what is returned.
mod error;
pub mod chain;
pub mod snapshot;
pub mod process;

pub use error::Error;
