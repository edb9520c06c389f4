//! Declarations of the outside types that signatures and fields carry.

use vstd::prelude::*;

verus! {

/// The relational engine's own error type, carried opaquely inside `CacheError::Store`.
#[verifier::external_type_specification]
#[verifier::external_body]
pub struct ExRusqliteError(rusqlite::Error);

/// The I/O error produced by the compression streams, carried inside `CacheError::Codec`.
#[verifier::external_type_specification]
#[verifier::external_body]
pub struct ExIoError(std::io::Error);

} // verus!
