//! A small service core: an external-command version probe, a memoizing
//! version cache, and a service registry aggregating the server's services.

use vstd::prelude::*;

mod cache;
mod errors;
mod probe;
mod registry;

pub use cache::VersionCache;
pub use registry::api;
pub use registry::lemma_registry_unique;
pub use registry::spec_registry;
pub use registry::Api;
pub use registry::AuthenticationService;
pub use errors::VersionError;
pub use probe::probe_reading;
pub use probe::reading_ok;
pub use probe::reading_value;
pub use probe::CommandOutput;
pub use probe::CommandRunner;
pub use probe::is_space_char;
pub use probe::trim_copy;
pub use probe::trim_end_spec;
pub use probe::trim_spec;
pub use probe::trim_start_spec;

verus! {

/// Path of the repository that the version probe inspects.
pub fn repository_path() -> (r: String)
    ensures
        r@ == "."@,
{
    String::from_str(".")
}

} // verus!
