//! The object retrieval decision.
//!
//! Retrieval is a single attempt with no retry and no partial result: a
//! readable body is handed out only on a fully successful response, and
//! a failed response yields the classified service error — so a
//! "not found" failure stays distinguishable and precedes any byte of
//! the body. Reading the body itself is modelled by the stream bridge.

use vstd::prelude::*;

use crate::errors::{classify_service_error, code_view, kind_of_code, ServiceError, ServiceErrorKind};

verus! {

/// What resolving one retrieval attempt yields: the body handle on
/// success, the classified service failure otherwise.
pub open spec fn spec_resolve<B>(outcome: Result<B, (Option<String>, String)>) -> Result<
    B,
    ServiceError,
> {
    match outcome {
        Ok(body) => Ok(body),
        Err((code, detail)) => Err(
            (ServiceError { kind: kind_of_code(code_view(code)), detail }),
        ),
    }
}

/// Resolve a single retrieval attempt. A successful response hands the
/// body through unchanged; a failed one — given the service's error
/// code and detail text — yields the classified error and no body.
pub fn resolve_retrieval<B>(outcome: Result<B, (Option<String>, String)>) -> (r: Result<
    B,
    ServiceError,
>)
    ensures
        r == spec_resolve(outcome),
{
    match outcome {
        Ok(body) => Ok(body),
        Err((code, detail)) => Err(classify_service_error(code, detail)),
    }
}

/// Law: a retrieval whose response names a missing bucket or key fails
/// with an error still distinguishable as "not found", and hands out no
/// body — no byte of the object precedes the failure.
pub proof fn lemma_not_found_refused<B>(outcome: Result<B, (Option<String>, String)>)
    requires
        ({
            &&& outcome matches Err((code, detail))
            &&& (code_view(code) == Some("NoSuchBucket"@) || code_view(code) == Some("NoSuchKey"@))
        }),
    ensures
        spec_resolve(outcome) matches Err(e) && (e.kind == ServiceErrorKind::NoSuchBucket
            || e.kind == ServiceErrorKind::NoSuchKey),
{
}

} // verus!
