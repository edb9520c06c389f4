//! The query ledger: one row per recorded query string, with an identity, a hit
//! counter and first/last-request timestamps.

use vstd::prelude::*;
use crate::error::CacheError;
use crate::model::{Query, QueryRec, bump_spec, id_above, id_fresh, ids_below_max, qrec, resolve_spec};
use crate::store::Store;

verus! {

/// Records `key` as a fresh ledger row with zero hits and both timestamps `now`.
/// A new row is added even when the key is already present, under an id that no
/// stored row carries; while every stored id is below the machine bound, the
/// fresh id is above them all and the row lands last.
pub fn insert(s: &mut Store, key: &String, now: i64) -> (r: Result<(), CacheError>)
    ensures
        r is Ok ==> exists|id: int, k: int|
            {
                &&& 0 <= k <= old(s)@.queries.len()
                &&& final(s)@.queries == #[trigger] old(s)@.queries.insert(
                    k,
                    qrec(id, key@, 0, now as int, now as int),
                )
                &&& id_fresh(old(s)@.queries, id)
                &&& (ids_below_max(old(s)@.queries) ==> k == old(s)@.queries.len() && id_above(
                    old(s)@.queries,
                    id,
                ))
            },
        r is Ok ==> final(s)@.responses == old(s)@.responses,
        r matches Err(e) ==> final(s)@ == old(s)@ && e is Store,
{
    s.append_query(key, 0, now, now)
}

/// Resolves `key` to its authoritative ledger record: the most recently
/// inserted matching row. A miss surfaces as `NoResponseCache(key)`; only the
/// engine itself can fail otherwise.
pub fn resolve(s: &Store, key: &String) -> (r: Result<Query, CacheError>)
    ensures
        r matches Ok(q) ==> resolve_spec(s@.queries, key@) == Some(q@),
        r matches Err(e) ==> match e {
            CacheError::NoResponseCache(k) => k@ == key@ && resolve_spec(s@.queries, key@) is None,
            CacheError::Store(_) => true,
            _ => false,
        },
{
    let mut rows = match s.select_queries(key) {
        Ok(v) => v,
        Err(e) => {
            return Err(e);
        },
    };
    let ghost m = s@.queries.filter(|rec: QueryRec| rec.key == key@);
    let ghost n = rows@.len();
    match rows.pop() {
        Some(q) => {
            proof {
                assert(m.len() == n);
                assert(m.last() == q@);
            }
            Ok(q)
        },
        None => {
            proof {
                assert(m.len() == 0);
            }
            Err(CacheError::NoResponseCache(key.clone()))
        },
    }
}

/// Writes a new hit count and last-request time onto every ledger row whose id
/// is `id`; nothing else changes.
pub fn record_hit(s: &mut Store, id: i64, hits: i64, t_last: i64) -> (r: Result<(), CacheError>)
    ensures
        r is Ok ==> final(s)@.queries == bump_spec(
            old(s)@.queries,
            id as int,
            hits as int,
            t_last as int,
        ) && final(s)@.responses == old(s)@.responses,
        r matches Err(e) ==> final(s)@ == old(s)@ && e is Store,
{
    s.rewrite_query(id, hits, t_last)
}

} // verus!
