//! The laws the cache obeys, stated over the table model that the facade's
//! contracts speak of and proved once and for all.

use vstd::prelude::*;
use crate::cache::{new_hits, new_t_last};
use crate::model::{
    QueryRec, RespRec, bump_one, bump_spec, fetch_spec, lemma_filter_push, qrec, resolve_spec, rrec,
};

verus! {

/// Nothing matching, nothing kept: a filter over rows none of which satisfies
/// the predicate is empty.
proof fn lemma_filter_all_excluded<A>(s: Seq<A>, pred: spec_fn(A) -> bool)
    requires
        forall|j: int| 0 <= j < s.len() ==> !pred(#[trigger] s[j]),
    ensures
        s.filter(pred).len() == 0,
    decreases s.len(),
{
    reveal(Seq::filter);
    if s.len() > 0 {
        assert(s =~= s.drop_last().push(s.last()));
        lemma_filter_push(s.drop_last(), pred, s.last());
        assert(forall|j: int|
            0 <= j < s.drop_last().len() ==> !pred(#[trigger] s.drop_last()[j]));
        lemma_filter_all_excluded(s.drop_last(), pred);
    }
}

/// Write-then-read: once an insert has appended its ledger row and its vault
/// row, the key resolves to exactly that ledger row, and its id fetches exactly
/// that payload.
pub proof fn lemma_write_then_read(
    qs: Seq<QueryRec>,
    rs: Seq<RespRec>,
    key: Seq<char>,
    id: int,
    now: int,
    payload: Seq<u8>,
)
    ensures
        resolve_spec(qs.push(qrec(id, key, 0, now, now)), key) == Some(qrec(id, key, 0, now, now)),
        fetch_spec(rs.push(rrec(id, payload)), id) == Some(rrec(id, payload)),
{
    lemma_filter_push(qs, |q: QueryRec| q.key == key, qrec(id, key, 0, now, now));
    lemma_filter_push(rs, |r: RespRec| r.id == id, rrec(id, payload));
}

/// Last insert wins: when two rows carrying the same key are appended in turn,
/// the key resolves to the second, never a merge of the two.
pub proof fn lemma_last_insert_wins(
    qs: Seq<QueryRec>,
    key: Seq<char>,
    first: QueryRec,
    second: QueryRec,
)
    requires
        first.key == key,
        second.key == key,
    ensures
        resolve_spec(qs.push(first).push(second), key) == Some(second),
{
    lemma_filter_push(qs.push(first), |q: QueryRec| q.key == key, second);
}

/// Miss signaling: a key that no ledger row carries resolves to nothing, so a
/// read can only answer it with the miss error.
pub proof fn lemma_unknown_key_misses(qs: Seq<QueryRec>, key: Seq<char>)
    requires
        forall|j: int| 0 <= j < qs.len() ==> (#[trigger] qs[j]).key != key,
    ensures
        resolve_spec(qs, key) is None,
{
    lemma_filter_all_excluded(qs, |q: QueryRec| q.key == key);
}

/// Orphan tolerance: an id that no vault row carries fetches nothing, so a read
/// can only answer it with the miss error carrying the stringified id.
pub proof fn lemma_orphan_misses(rs: Seq<RespRec>, id: int)
    requires
        forall|j: int| 0 <= j < rs.len() ==> (#[trigger] rs[j]).id != id,
    ensures
        fetch_spec(rs, id) is None,
{
    lemma_filter_all_excluded(rs, |r: RespRec| r.id == id);
}

/// Recording a hit rewrites rows without touching their keys, so the matching
/// rows afterwards are exactly the bumped images of the matching rows before.
proof fn lemma_bump_filter(qs: Seq<QueryRec>, key: Seq<char>, id: int, hits: int, t_last: int)
    ensures
        bump_spec(qs, id, hits, t_last).filter(|q: QueryRec| q.key == key) == qs.filter(
            |q: QueryRec| q.key == key,
        ).map_values(|q: QueryRec| bump_one(q, id, hits, t_last)),
    decreases qs.len(),
{
    reveal(Seq::filter);
    let pred = |q: QueryRec| q.key == key;
    let b = |q: QueryRec| bump_one(q, id, hits, t_last);
    if qs.len() == 0 {
        assert(bump_spec(qs, id, hits, t_last) =~= qs);
        assert(qs.filter(pred).map_values(b) =~= qs);
    } else {
        let pre = qs.drop_last();
        let x = qs.last();
        lemma_bump_filter(pre, key, id, hits, t_last);
        assert(qs =~= pre.push(x));
        assert(bump_spec(qs, id, hits, t_last) =~= bump_spec(pre, id, hits, t_last).push(b(x)));
        lemma_filter_push(bump_spec(pre, id, hits, t_last), pred, b(x));
        lemma_filter_push(pre, pred, x);
        if pred(x) {
            assert(pre.filter(pred).push(x).map_values(b) =~= pre.filter(pred).map_values(b).push(
                b(x),
            ));
        }
    }
}

/// Hit counting hits only its mark: after a hit is recorded on the record a key
/// resolves to, the key resolves to the same record, with exactly the new hit
/// count and last-request time and nothing else changed.
pub proof fn lemma_record_hit_resolves(
    qs: Seq<QueryRec>,
    key: Seq<char>,
    rec: QueryRec,
    hits: int,
    t_last: int,
)
    requires
        resolve_spec(qs, key) == Some(rec),
    ensures
        resolve_spec(bump_spec(qs, rec.id, hits, t_last), key) == Some(
            QueryRec { hits, time_last_request: t_last, ..rec },
        ),
{
    lemma_bump_filter(qs, key, rec.id, hits, t_last);
    let pred = |q: QueryRec| q.key == key;
    let b = |q: QueryRec| bump_one(q, rec.id, hits, t_last);
    let m = qs.filter(pred);
    assert(m.map_values(b).last() == b(m.last()));
}

/// Hit counting monotonicity: a read at `now` leaves the record its key
/// resolves to with exactly one more hit (as long as the counter is below the
/// machine bound), an unchanged first-request time, and a last-request time no
/// earlier than before, than `now`, and than the first-request time.
pub proof fn lemma_hit_monotonicity(qs: Seq<QueryRec>, key: Seq<char>, rec: QueryRec, now: int)
    requires
        resolve_spec(qs, key) == Some(rec),
        rec.hits < i64::MAX,
    ensures
        ({
            let bumped = bump_spec(qs, rec.id, new_hits(rec.hits), new_t_last(rec, now));
            let after = resolve_spec(bumped, key);
            &&& after is Some
            &&& after->Some_0.id == rec.id
            &&& after->Some_0.key == rec.key
            &&& after->Some_0.hits == rec.hits + 1
            &&& after->Some_0.time_first_request == rec.time_first_request
            &&& after->Some_0.time_last_request >= rec.time_last_request
            &&& after->Some_0.time_last_request >= now
            &&& after->Some_0.time_last_request >= after->Some_0.time_first_request
        }),
{
    lemma_record_hit_resolves(qs, key, rec, new_hits(rec.hits), new_t_last(rec, now));
}

} // verus!
