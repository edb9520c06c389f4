//! The error kinds a cache operation can surface.

use vstd::prelude::*;

verus! {

/// Everything a cache operation can fail with.
#[derive(Debug)]
pub enum CacheError {
    /// The relational engine failed to open the store or to prepare or run a statement.
    Store(rusqlite::Error),
    /// A compression or decompression stream failed.
    Codec(std::io::Error),
    /// A stored payload does not start with the expected format tag.
    Payload,
    /// The expected, recoverable miss: nothing cached under the given key
    /// (or, for a vault fetch, under the given stringified id).
    NoResponseCache(String),
    /// A credential record is not well formed.
    TokenFormat(String),
}

} // verus!
