//! Verified adapter logic for a thin object-storage convenience layer.
//!
//! The library models the decision and translation logic of a small glue
//! layer over a cloud object-storage SDK: flattening paginated listing
//! responses into a single ordered sequence of object descriptors,
//! passing object-body byte chunks through unchanged while translating
//! transport failures into an opaque error, classifying service errors,
//! and choosing the client endpoint. The asynchronous plumbing that
//! drives these state machines lives outside the verified library.

pub mod body;
pub mod client;
pub mod errors;
pub mod listing;
pub mod retrieval;
