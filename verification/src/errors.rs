//! Error taxonomy of the adapter layer.
//!
//! Service errors are structured failures returned by the remote service;
//! they are propagated to the caller unmodified, but carry a classified
//! kind so that "not found" failures stay distinguishable. Transport
//! errors are lower-level streaming failures, erased to an opaque cause.

use vstd::prelude::*;

verus! {

/// The classification of a structured service failure.
#[derive(Clone, Copy, Debug, PartialEq, Eq, Structural)]
pub enum ServiceErrorKind {
    /// The requested bucket does not exist.
    NoSuchBucket,
    /// The requested key does not exist.
    NoSuchKey,
    /// Any other structured service failure.
    Other,
}

/// A structured failure returned by the remote service, kept as the
/// service reported it: a classified kind plus the untouched detail text.
#[derive(Debug)]
pub struct ServiceError {
    pub kind: ServiceErrorKind,
    pub detail: String,
}

impl ServiceError {
    /// True exactly when the failure says the bucket or the key is absent.
    pub fn is_not_found(&self) -> (r: bool)
        ensures
            r == (self.kind == ServiceErrorKind::NoSuchBucket
                || self.kind == ServiceErrorKind::NoSuchKey),
    {
        self.kind == ServiceErrorKind::NoSuchBucket || self.kind == ServiceErrorKind::NoSuchKey
    }
}

/// The kind that a service error code denotes.
pub open spec fn kind_of_code(code: Option<Seq<char>>) -> ServiceErrorKind {
    if code == Some("NoSuchBucket"@) {
        ServiceErrorKind::NoSuchBucket
    } else if code == Some("NoSuchKey"@) {
        ServiceErrorKind::NoSuchKey
    } else {
        ServiceErrorKind::Other
    }
}

/// The view of an optional error code.
pub open spec fn code_view(code: Option<String>) -> Option<Seq<char>> {
    match code {
        Some(c) => Some(c@),
        None => None,
    }
}

/// Classify a raw service failure, given its error code and detail text.
/// The detail is preserved unmodified; only the kind is derived.
pub fn classify_service_error(code: Option<String>, detail: String) -> (e: ServiceError)
    ensures
        e.kind == kind_of_code(code_view(code)),
        e.detail == detail,
{
    let kind = match code {
        Some(c) => {
            let no_such_bucket: String = "NoSuchBucket".to_owned();
            let no_such_key: String = "NoSuchKey".to_owned();
            if c == no_such_bucket {
                ServiceErrorKind::NoSuchBucket
            } else if c == no_such_key {
                ServiceErrorKind::NoSuchKey
            } else {
                ServiceErrorKind::Other
            }
        },
        None => ServiceErrorKind::Other,
    };
    ServiceError { kind, detail }
}

/// A lower-level transport failure while streaming an object body,
/// wrapped into one opaque kind: the original cause is preserved as
/// text, its specific type erased.
#[derive(Debug)]
pub struct TransportError {
    pub cause: String,
}

} // verus!
