//! A compiler from an OpenAPI-style HTTP API description to a set of
//! executable fuzzing probes for a Matrix homeserver.
//!
//! The library covers the pure compilation pass: normalizing the parsed
//! document, classifying path-template parameters, flattening request-body
//! schemas, building the allowed-outcome policy for each operation, and
//! synthesizing one probe artifact per operation.  Transport, credential
//! loading and the randomized input search are left to the embedding
//! program, which talks to the library through plain data.

pub mod casing;
pub mod compile;
pub mod paths;
pub mod policy;
pub mod flatten;
pub mod json;
pub mod model;
pub mod normalize;
pub mod probe;
pub mod runtime;
pub mod text;

use vstd::prelude::*;

verus! {

/// The largest number of bytes an unclassified path substitution may
/// occupy after sanitization.
pub const MAX_PATH_VALUE_BYTES: usize = 255;

} // verus!
