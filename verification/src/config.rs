//! The service registry: an ordered list of routes, fixed once the gateway serves.

use vstd::prelude::*;

verus! {

/// The kind of backend behind a route; it selects the dispatcher.
#[derive(Clone, Copy, Debug, PartialEq, Eq, Structural)]
pub enum ServiceType {
    /// A hosted completion API, reached over HTTPS with a bearer token.
    Openai,
    /// A model runtime that serves a fixed set of operations locally.
    Llama2,
    /// A diagnostic target that answers with a fixed text.
    Test,
}

/// One route of the registry.
#[derive(Clone, Debug, PartialEq, Eq)]
pub struct ServiceConfig {
    /// The path prefix that this route claims.
    pub path: String,
    pub ty: ServiceType,
    /// The absolute address of the downstream service; read only for
    /// [`ServiceType::Openai`].
    pub target_service: String,
}

impl ServiceConfig {
    /// A route is well formed when its prefix is not empty.
    pub open spec fn wf(&self) -> bool {
        self.path@.len() > 0
    }

    /// Tells whether the route's prefix is not empty.
    pub fn is_well_formed(&self) -> (ok: bool)
        ensures
            ok == self.wf(),
    {
        !self.path.as_str().is_empty()
    }
}

/// The gateway's configuration; the order of `services` decides precedence.
#[derive(Clone, Debug, PartialEq, Eq)]
pub struct GatewayConfig {
    pub services: Vec<ServiceConfig>,
}

impl GatewayConfig {
    /// A registry is well formed when each of its routes is.
    pub open spec fn wf(&self) -> bool {
        forall|i: int| 0 <= i < self.services@.len() ==> (#[trigger] self.services@[i]).wf()
    }

    /// Tells whether every route of the registry has a prefix.
    pub fn is_well_formed(&self) -> (ok: bool)
        ensures
            ok == self.wf(),
    {
        let mut i: usize = 0;
        while i < self.services.len()
            invariant
                i <= self.services@.len(),
                forall|j: int| 0 <= j < i ==> (#[trigger] self.services@[j]).wf(),
            decreases self.services@.len() - i,
        {
            if !self.services[i].is_well_formed() {
                return false;
            }
            i += 1;
        }
        true
    }
}

} // verus!
