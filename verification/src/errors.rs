//! The error taxonomy of the version subsystem.

use vstd::prelude::*;

verus! {

/// Errors that can occur when retrieving the version.
///
/// Each variant carries a human-readable description of the underlying cause.
#[derive(Debug)]
pub enum VersionError {
    /// The external command could not be launched or did not complete.
    GitCommand(String),
    /// The command's output is not valid UTF-8 text.
    Utf8Decode(String),
    /// Exclusive access to the cache could not be acquired.
    MutexLock(String),
}

} // verus!
