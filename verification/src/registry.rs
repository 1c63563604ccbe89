//! The service registry: a fixed-shape aggregate of the server's services,
//! constructed once and shared for the rest of the process lifetime.
//!
//! Construction is deterministic — every construction yields the same
//! registry value — so callers that race to construct it can never observe
//! two different registries. The once-only sharing itself is the concern of
//! whoever owns the registry; this module defines what is constructed.

use vstd::prelude::*;

verus! {

/// The authentication service. A placeholder in this core: sign-in performs
/// no credential validation, holds no state, and is safe to call from any
/// number of callers at once.
#[derive(Debug, PartialEq, Eq, Structural)]
pub struct AuthenticationService {}

impl AuthenticationService {
    /// A fresh authentication service in its default initial state.
    pub fn new() -> (r: AuthenticationService)
        ensures
            r == (AuthenticationService {}),
    {
        AuthenticationService {}
    }

    /// Signs a caller in. A placeholder: it validates nothing, mutates
    /// nothing, and always acknowledges.
    pub fn sign_in(&self) -> (r: bool)
        ensures
            r,
    {
        true
    }
}

/// The service registry: one named field per service, all instantiated at
/// the same construction point.
#[derive(Debug, PartialEq, Eq, Structural)]
pub struct Api {
    pub auth: AuthenticationService,
}

/// The one registry value that every construction yields.
pub open spec fn spec_registry() -> Api {
    Api { auth: AuthenticationService {} }
}

/// Constructs the service registry, instantiating every contained service
/// with its default initial state.
pub fn api() -> (r: Api)
    ensures
        r == spec_registry(),
{
    Api { auth: AuthenticationService::new() }
}

/// Every caller observes the same registry: any two values that satisfy the
/// construction contract of [`api`] are equal.
pub proof fn lemma_registry_unique(a: Api, b: Api)
    requires
        a == spec_registry(),
        b == spec_registry(),
    ensures
        a == b,
{
}

} // verus!
