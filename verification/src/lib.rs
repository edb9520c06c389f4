//! A persistent, content-keyed cache for expensive remote query results,
//! backed by an embedded relational store.
//!
//! Callers hand `cache::insert` a query key and serialized response bytes; the
//! bytes are compressed, tagged and stored under a fresh ledger row.
//! `cache::select` resolves the key to its most recently inserted ledger row,
//! records a hit on it, fetches the stored payload under its id and decodes it;
//! a key never inserted surfaces the recoverable miss `NoResponseCache`.
//!
//! The two persisted tables are modelled as sequences of rows in insertion
//! order (`model`), every operation's contract says what it does to that model,
//! and `laws` proves the properties the cache obeys: write-then-read, last
//! insert wins, miss signaling, orphan tolerance and hit-count monotonicity.

pub mod cache;
pub mod codec;
pub mod digits;
pub mod error;
pub mod externals;
pub mod laws;
pub mod ledger;
pub mod model;
pub mod store;
pub mod token;
pub mod vault;
