//! The cache facade: `insert` records a serialized response under a query key;
//! `select` returns the stored response for a key, bumping its hit count.

use vstd::prelude::*;
use crate::codec::{decode_payload, decode_spec, encode_payload, encoded};
use crate::digits::dec_str;
use crate::error::CacheError;
use crate::ledger;
use crate::model::{
    QueryRec, RespRec, bump_spec, fetch_spec, id_above, id_fresh, ids_below_max, lemma_filter_push,
    qrec, resolve_spec, rrec,
};
use crate::store::Store;
use crate::vault;

verus! {

/// A typed response paired with the owning query's id. In-memory only.
pub struct Response<T> {
    pub id: i64,
    pub response: T,
}

/// The hit count after one more successful read: one more, saturating at the
/// machine bound.
pub open spec fn new_hits(h: int) -> int {
    if h < i64::MAX {
        h + 1
    } else {
        h
    }
}

/// The last-request time written by a read at `now`: never before the record's
/// own times, so the ledger's time order survives a clock that jumped back.
pub open spec fn new_t_last(rec: QueryRec, now: int) -> int {
    let t = if rec.time_last_request >= now {
        rec.time_last_request
    } else {
        now
    };
    if rec.time_first_request >= t {
        rec.time_first_request
    } else {
        t
    }
}

/// Relies on chrono's `Utc::now`: the wall clock as a unix timestamp in
/// seconds. Nothing is assumed of the value.
#[verifier::external_body]
fn now_unix() -> i64 {
    chrono::Utc::now().timestamp()
}

/// The ledger grew by exactly one row for `key` stamped `now`: the shape every
/// insert leaves behind once its ledger step has run, whatever happens later.
pub open spec fn ledger_grew(
    pre: Seq<QueryRec>,
    post: Seq<QueryRec>,
    key: Seq<char>,
    now: int,
) -> bool {
    exists|id: int, k: int|
        0 <= k <= pre.len() && post == #[trigger] pre.insert(k, qrec(id, key, 0, now, now))
}

/// Everything a successful insert guarantees of the store model: one fresh
/// ledger row for `key`, the encoded payload stored under the id the key then
/// resolves to, and (while every stored id is below the machine bound) that
/// row last in the ledger under an id above them all, so the vault row carries
/// its id.
pub open spec fn insert_outcome(
    pre_q: Seq<QueryRec>,
    pre_r: Seq<RespRec>,
    post_q: Seq<QueryRec>,
    post_r: Seq<RespRec>,
    key: Seq<char>,
    bytes: Seq<u8>,
    now: int,
) -> bool {
    exists|id: int, k: int|
        {
            &&& 0 <= k <= pre_q.len()
            &&& post_q == #[trigger] pre_q.insert(k, qrec(id, key, 0, now, now))
            &&& id_fresh(pre_q, id)
            &&& (resolve_spec(post_q, key) matches Some(rec) && post_r == pre_r.push(
                rrec(rec.id, encoded(bytes)),
            ))
            &&& decode_spec(encoded(bytes)) == Some(bytes)
            &&& (ids_below_max(pre_q) ==> k == pre_q.len() && id_above(pre_q, id) && post_r
                == pre_r.push(rrec(id, encoded(bytes))))
        }
}

/// Records `serialized` under `query` at time `now`: adds a fresh ledger row
/// (zero hits, both timestamps `now`), resolves the key back to learn the
/// authoritative id, and appends the encoded payload to the vault under that
/// id. No uniqueness is enforced: a repeated key simply gains a newer pair of
/// rows, and readers see the newest. On failure nothing is written, except
/// that a ledger row without its vault row remains when a later step fails.
pub fn insert_at(s: &mut Store, query: &String, serialized: &Vec<u8>, now: i64) -> (r: Result<
    (),
    CacheError,
>)
    ensures
        r is Ok ==> insert_outcome(
            old(s)@.queries,
            old(s)@.responses,
            final(s)@.queries,
            final(s)@.responses,
            query@,
            serialized@,
            now as int,
        ),
        r is Err ==> final(s)@.responses == old(s)@.responses && (final(s)@.queries
            == old(s)@.queries || ledger_grew(
            old(s)@.queries,
            final(s)@.queries,
            query@,
            now as int,
        )),
        r matches Err(e) ==> e is Store,
{
    let ghost qs0 = s@.queries;
    let ghost rs0 = s@.responses;
    match ledger::insert(s, query, now) {
        Ok(()) => (),
        Err(e) => {
            return Err(e);
        },
    }
    let ghost (id, k): (int, int) = choose|id: int, k: int|
        {
            &&& 0 <= k <= qs0.len()
            &&& s@.queries == #[trigger] qs0.insert(k, qrec(id, query@, 0, now as int, now as int))
            &&& id_fresh(qs0, id)
            &&& (ids_below_max(qs0) ==> k == qs0.len() && id_above(qs0, id))
        };
    let ghost rec = qrec(id, query@, 0, now as int, now as int);
    let ghost pred = |r: QueryRec| r.key == query@;
    proof {
        qs0.insert_ensures(k, rec);
        assert(s@.queries[k] == rec);
        s@.queries.lemma_filter_contains(pred, k);
        assert(s@.queries.filter(pred).len() > 0);
        if ids_below_max(qs0) {
            assert(s@.queries =~= qs0.push(rec));
            lemma_filter_push(qs0, pred, rec);
            assert(resolve_spec(s@.queries, query@) == Some(rec));
        }
    }
    let q = match ledger::resolve(s, query) {
        Ok(q) => q,
        Err(e) => {
            return Err(e);
        },
    };
    let payload = match encode_payload(serialized) {
        Ok(p) => p,
        Err(e) => {
            proof {
                assert(false);
            }
            return Err(e);
        },
    };
    match vault::store(s, q.id, &payload) {
        Ok(()) => {
            proof {
                if ids_below_max(qs0) {
                    assert(q@ == rec);
                    assert(q.id as int == id);
                }
                assert(insert_outcome(
                    qs0,
                    rs0,
                    s@.queries,
                    s@.responses,
                    query@,
                    serialized@,
                    now as int,
                ));
            }
            Ok(())
        },
        Err(e) => Err(e),
    }
}

/// `insert_at` with the wall clock supplying the timestamp.
pub fn insert(s: &mut Store, query: &String, serialized: &Vec<u8>) -> (r: Result<(), CacheError>)
    ensures
        r is Ok ==> exists|t: int|
            #[trigger] insert_outcome(
                old(s)@.queries,
                old(s)@.responses,
                final(s)@.queries,
                final(s)@.responses,
                query@,
                serialized@,
                t,
            ),
        r is Err ==> final(s)@.responses == old(s)@.responses && (final(s)@.queries
            == old(s)@.queries || exists|t: int|
            #[trigger] ledger_grew(old(s)@.queries, final(s)@.queries, query@, t)),
        r matches Err(e) ==> e is Store,
{
    let now: i64 = now_unix();
    insert_at(s, query, serialized, now)
}

/// Looks `query` up at time `now`: resolves the authoritative ledger record,
/// records one hit on it, fetches the stored payload under its id and decodes
/// it. A key never inserted surfaces the miss `NoResponseCache(query)` and
/// changes nothing; a ledger row without its vault row surfaces
/// `NoResponseCache(id)` with the id stringified, after the hit was recorded.
pub fn select_at(s: &mut Store, query: &String, now: i64) -> (r: Result<
    Response<Vec<u8>>,
    CacheError,
>)
    ensures
        resolve_spec(old(s)@.queries, query@) is None ==> final(s)@ == old(s)@ && (r matches Err(e)
            && (e matches CacheError::NoResponseCache(k) ==> k@ == query@) && (e is NoResponseCache
            || e is Store)),
        r matches Ok(resp) ==> (resolve_spec(old(s)@.queries, query@) matches Some(rec)
            && resp.id as int == rec.id && (fetch_spec(old(s)@.responses, rec.id) matches Some(row)
            && decode_spec(row.payload) == Some(resp.response@)) && final(s)@.queries == bump_spec(
            old(s)@.queries,
            rec.id,
            new_hits(rec.hits),
            new_t_last(rec, now as int),
        ) && final(s)@.responses == old(s)@.responses),
        ({
            let rq = resolve_spec(old(s)@.queries, query@);
            rq is Some && fetch_spec(old(s)@.responses, rq->Some_0.id) is None ==> (r matches Err(
                e,
            ) && (e matches CacheError::NoResponseCache(k) ==> k@ == dec_str(rq->Some_0.id)) && (
            e is NoResponseCache || e is Store))
        }),
        r matches Err(e) ==> (e matches CacheError::NoResponseCache(k) ==> ({
            let rq = resolve_spec(old(s)@.queries, query@);
            ||| (rq is None && k@ == query@ && final(s)@ == old(s)@)
            ||| (rq is Some && fetch_spec(old(s)@.responses, rq->Some_0.id) is None && k@
                == dec_str(rq->Some_0.id))
        })),
        r matches Err(e) ==> ({
            let rq = resolve_spec(old(s)@.queries, query@);
            let bumped = rq is Some && final(s)@.queries == bump_spec(
                old(s)@.queries,
                rq->Some_0.id,
                new_hits(rq->Some_0.hits),
                new_t_last(rq->Some_0, now as int),
            );
            &&& final(s)@.responses == old(s)@.responses
            &&& (final(s)@.queries == old(s)@.queries || bumped)
            &&& ((e is NoResponseCache && rq is Some) ==> bumped)
            &&& ((e is Payload || e is Codec) ==> bumped)
        }),
{
    let q = match ledger::resolve(s, query) {
        Ok(q) => q,
        Err(e) => {
            return Err(e);
        },
    };
    let nh: i64 = if q.hits < i64::MAX {
        q.hits + 1
    } else {
        q.hits
    };
    let mut nt: i64 = q.time_last_request;
    if now > nt {
        nt = now;
    }
    if q.time_first_request > nt {
        nt = q.time_first_request;
    }
    proof {
        assert(nh as int == new_hits(q@.hits));
        assert(nt as int == new_t_last(q@, now as int));
    }
    match ledger::record_hit(s, q.id, nh, nt) {
        Ok(()) => (),
        Err(e) => {
            return Err(e);
        },
    }
    let ir = match vault::fetch(s, q.id) {
        Ok(ir) => ir,
        Err(e) => {
            return Err(e);
        },
    };
    let id: i64 = ir.id;
    match decode_payload(ir.response) {
        Ok(v) => Ok(Response { id, response: v }),
        Err(e) => Err(e),
    }
}

/// `select_at` with the wall clock supplying the timestamp.
pub fn select(s: &mut Store, query: &String) -> (r: Result<Response<Vec<u8>>, CacheError>)
    ensures
        resolve_spec(old(s)@.queries, query@) is None ==> final(s)@ == old(s)@ && (r matches Err(e)
            && (e matches CacheError::NoResponseCache(k) ==> k@ == query@) && (e is NoResponseCache
            || e is Store)),
        r matches Ok(resp) ==> (resolve_spec(old(s)@.queries, query@) matches Some(rec)
            && resp.id as int == rec.id && (fetch_spec(old(s)@.responses, rec.id) matches Some(row)
            && decode_spec(row.payload) == Some(resp.response@)) && final(s)@.responses
            == old(s)@.responses && exists|t: int|
            final(s)@.queries == bump_spec(old(s)@.queries, rec.id, new_hits(rec.hits), t) && t
                >= rec.time_first_request && t >= rec.time_last_request),
        ({
            let rq = resolve_spec(old(s)@.queries, query@);
            rq is Some && fetch_spec(old(s)@.responses, rq->Some_0.id) is None ==> (r matches Err(
                e,
            ) && (e matches CacheError::NoResponseCache(k) ==> k@ == dec_str(rq->Some_0.id)) && (
            e is NoResponseCache || e is Store))
        }),
        r matches Err(e) ==> (e matches CacheError::NoResponseCache(k) ==> ({
            let rq = resolve_spec(old(s)@.queries, query@);
            ||| (rq is None && k@ == query@ && final(s)@ == old(s)@)
            ||| (rq is Some && fetch_spec(old(s)@.responses, rq->Some_0.id) is None && k@
                == dec_str(rq->Some_0.id))
        })),
        r matches Err(e) ==> ({
            let rq = resolve_spec(old(s)@.queries, query@);
            &&& final(s)@.responses == old(s)@.responses
            &&& (((e is NoResponseCache && rq is Some) || e is Payload || e is Codec) ==> (
            rq is Some && exists|t: int|
                final(s)@.queries == #[trigger] bump_spec(
                    old(s)@.queries,
                    rq->Some_0.id,
                    new_hits(rq->Some_0.hits),
                    t,
                )))
        }),
{
    let now: i64 = now_unix();
    let r = select_at(s, query, now);
    proof {
        if r is Ok {
            let rec = resolve_spec(old(s)@.queries, query@)->Some_0;
            assert(new_t_last(rec, now as int) >= rec.time_first_request && new_t_last(
                rec,
                now as int,
            ) >= rec.time_last_request);
        }
    }
    r
}

} // verus!
