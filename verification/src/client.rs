//! The client endpoint decision.
//!
//! A client is built from ambient configuration; when a local-development
//! override endpoint is present, the request endpoint is rewritten to it
//! and bucket addressing switches to path style (the bucket name in the
//! path rather than the subdomain). The two changes always go together.

use vstd::prelude::*;

verus! {

/// How the client's endpoint is to be configured.
pub enum EndpointPlan {
    /// Keep the ambient configuration's endpoint untouched.
    Standard,
    /// Redirect requests to this endpoint and force path-style
    /// bucket addressing.
    LocalOverride { uri: String },
}

/// The plan an optional override endpoint dictates.
pub open spec fn spec_plan(override_uri: Option<String>) -> EndpointPlan {
    match override_uri {
        Some(uri) => EndpointPlan::LocalOverride { uri },
        None => EndpointPlan::Standard,
    }
}

/// Decide the client endpoint: an override, when present, both rewrites
/// the endpoint and forces path-style addressing; absence means no
/// redirection at all.
pub fn plan_endpoint(override_uri: Option<String>) -> (p: EndpointPlan)
    ensures
        p == spec_plan(override_uri),
{
    match override_uri {
        Some(uri) => EndpointPlan::LocalOverride { uri },
        None => EndpointPlan::Standard,
    }
}

impl EndpointPlan {
    /// Path-style addressing is forced exactly when the endpoint is
    /// overridden.
    pub fn forces_path_style(&self) -> (r: bool)
        ensures
            r == (self is LocalOverride),
    {
        match self {
            EndpointPlan::LocalOverride { .. } => true,
            EndpointPlan::Standard => false,
        }
    }
}

} // verus!
