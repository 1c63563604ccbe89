//! The version cache: a memoization cell that is populated at most once per
//! process lifetime.
//!
//! The cell starts unpopulated and transitions to populated exactly once, on
//! the first completed probe reading — including the `"unknown"` sentinel of a
//! non-success exit. A probe error (launch or decode failure) is never cached:
//! the cell stays unpopulated and the next caller retries from scratch. Once
//! populated, the cell never changes again, and `get` answers from it without
//! touching the runner.

use vstd::prelude::*;

use crate::errors::VersionError;
use crate::probe::probe_reading;
use crate::probe::CommandRunner;

verus! {

/// A memoization cell for the version reading, populated at most once.
pub struct VersionCache {
    value: Option<String>,
}

impl VersionCache {
    /// The cached reading: `None` while unpopulated, `Some` of the stored
    /// characters once populated.
    pub closed spec fn spec_value(&self) -> Option<Seq<char>> {
        match self.value {
            Option::None => Option::None,
            Option::Some(s) => Option::Some(s@),
        }
    }

    /// A fresh, unpopulated cache.
    pub fn new() -> (r: VersionCache)
        ensures
            r.spec_value() is None,
    {
        VersionCache { value: None }
    }

    /// The cached reading, if the cache is populated. Never touches the
    /// probe: this is the non-blocking fast path.
    pub fn cached(&self) -> (r: Option<String>)
        ensures
            match r {
                Option::Some(s) => self.spec_value() == Option::Some(s@),
                Option::None => self.spec_value() is None,
            },
    {
        match &self.value {
            Some(v) => Some(v.clone()),
            None => None,
        }
    }

    /// The cached reading if there is one; otherwise run the probe once,
    /// cache its reading, and return it.
    ///
    /// A populated cache answers immediately: the stored value is returned
    /// unchanged and the runner is not touched, so no further external
    /// invocation ever happens once a reading is stored. An unpopulated cache
    /// runs the probe: a completed reading — the sentinel included — is
    /// stored and returned; an error is returned and nothing is stored, so
    /// the next caller retries.
    pub fn get<R: CommandRunner>(&mut self, runner: &mut R) -> (r: Result<String, VersionError>)
        ensures
            old(self).spec_value() matches Some(v) ==> {
                &&& r matches Ok(s) && s@ == v
                &&& *final(runner) == *old(runner)
            },
            final(self).spec_value() == match r {
                Result::Ok(s) => Option::Some(s@),
                Result::Err(_) => old(self).spec_value(),
            },
            r matches Err(e) ==> {
                &&& old(self).spec_value() is None
                &&& e is GitCommand || e is Utf8Decode
            },
    {
        match &self.value {
            Some(v) => {
                return Ok(v.clone());
            },
            None => {},
        }
        let out = match runner.run() {
            Ok(out) => out,
            Err(cause) => {
                return Err(VersionError::GitCommand(cause));
            },
        };
        match probe_reading(out.success, out.stdout) {
            Ok(v) => {
                self.value = Some(v.clone());
                Ok(v)
            },
            Err(e) => Err(e),
        }
    }
}

} // verus!
