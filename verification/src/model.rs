//! The mathematical model of the two persisted tables, and the row types that
//! move between the store and the rest of the library.

use vstd::prelude::*;

verus! {

/// One row of the query ledger, as the contracts see it.
pub ghost struct QueryRec {
    pub id: int,
    pub key: Seq<char>,
    pub hits: int,
    pub time_first_request: int,
    pub time_last_request: int,
}

/// One row of the response vault, as the contracts see it.
pub ghost struct RespRec {
    pub id: int,
    pub payload: Seq<u8>,
}

/// A ledger row with the given fields.
pub open spec fn qrec(id: int, key: Seq<char>, hits: int, t_first: int, t_last: int) -> QueryRec {
    QueryRec { id, key, hits, time_first_request: t_first, time_last_request: t_last }
}

/// A vault row with the given fields.
pub open spec fn rrec(id: int, payload: Seq<u8>) -> RespRec {
    RespRec { id, payload }
}

/// `id` is strictly above every id already in the ledger.
pub open spec fn id_above(rows: Seq<QueryRec>, id: int) -> bool {
    forall|j: int| 0 <= j < rows.len() ==> (#[trigger] rows[j]).id < id
}

/// `id` occurs nowhere in the ledger.
pub open spec fn id_fresh(rows: Seq<QueryRec>, id: int) -> bool {
    forall|j: int| 0 <= j < rows.len() ==> (#[trigger] rows[j]).id != id
}

/// Every id in the ledger is below the machine bound. While this holds (and it
/// always holds for ids the engine assigned itself), the engine hands out
/// fresh ids above every stored one, so id order is insertion order.
pub open spec fn ids_below_max(rows: Seq<QueryRec>) -> bool {
    forall|j: int| 0 <= j < rows.len() ==> (#[trigger] rows[j]).id < i64::MAX
}

/// The ledger rows whose key is `key`, in stored (ascending id) order.
pub open spec fn matching_queries(rows: Seq<QueryRec>, key: Seq<char>) -> Seq<QueryRec> {
    rows.filter(|q: QueryRec| q.key == key)
}

/// The authoritative record for `key`: the matching row with the greatest id,
/// which is the most recently inserted one while ids stay below the machine bound.
pub open spec fn resolve_spec(rows: Seq<QueryRec>, key: Seq<char>) -> Option<QueryRec> {
    let m = matching_queries(rows, key);
    if m.len() == 0 {
        None
    } else {
        Some(m.last())
    }
}

/// The vault rows stored under `id`, in insertion order.
pub open spec fn matching_responses(rows: Seq<RespRec>, id: int) -> Seq<RespRec> {
    rows.filter(|r: RespRec| r.id == id)
}

/// The authoritative vault row for `id`: the most recently inserted matching row.
pub open spec fn fetch_spec(rows: Seq<RespRec>, id: int) -> Option<RespRec> {
    let m = matching_responses(rows, id);
    if m.len() == 0 {
        None
    } else {
        Some(m.last())
    }
}

/// What recording a hit does to one row: a row with the given id gets the new
/// hit count and last-request time; any other row is untouched.
pub open spec fn bump_one(q: QueryRec, id: int, hits: int, t_last: int) -> QueryRec {
    if q.id == id {
        (QueryRec { hits, time_last_request: t_last, ..q })
    } else {
        q
    }
}

/// The ledger after a hit is recorded for `id`: `bump_one` applied to each row.
pub open spec fn bump_spec(rows: Seq<QueryRec>, id: int, hits: int, t_last: int) -> Seq<QueryRec> {
    rows.map_values(|q: QueryRec| bump_one(q, id, hits, t_last))
}

/// Filtering a sequence extended by one element keeps the old result and appends
/// the new element exactly when it matches.
pub proof fn lemma_filter_push<A>(s: Seq<A>, pred: spec_fn(A) -> bool, x: A)
    ensures
        s.push(x).filter(pred) == if pred(x) {
            s.filter(pred).push(x)
        } else {
            s.filter(pred)
        },
{
    reveal(Seq::filter);
    let single = seq![x];
    assert(single.drop_last() =~= Seq::<A>::empty());
    assert(Seq::<A>::empty().filter(pred) =~= Seq::<A>::empty());
    assert(single.len() == 1);
    assert(single.last() == x);
    assert(single.drop_last().filter(pred) == Seq::<A>::empty());
    if pred(x) {
        assert(single.filter(pred) =~= Seq::<A>::empty().push(x));
    } else {
        assert(single.filter(pred) =~= Seq::<A>::empty());
    }
    Seq::filter_distributes_over_add(s, single, pred);
    assert(s.push(x) =~= s + single);
    if pred(x) {
        assert(s.filter(pred) + Seq::<A>::empty().push(x) =~= s.filter(pred).push(x));
    } else {
        assert(s.filter(pred) + Seq::<A>::empty() =~= s.filter(pred));
    }
}

/// One row of the query ledger, as the store hands it out.
pub struct Query {
    pub id: i64,
    pub query: String,
    pub hits: i64,
    pub time_first_request: i64,
    pub time_last_request: i64,
}

impl View for Query {
    type V = QueryRec;

    open spec fn view(&self) -> QueryRec {
        QueryRec {
            id: self.id as int,
            key: self.query@,
            hits: self.hits as int,
            time_first_request: self.time_first_request as int,
            time_last_request: self.time_last_request as int,
        }
    }
}

/// One row of the response vault: the owning query's id and the stored bytes.
pub struct InternalResponse {
    pub id: i64,
    pub response: Vec<u8>,
}

impl View for InternalResponse {
    type V = RespRec;

    open spec fn view(&self) -> RespRec {
        RespRec { id: self.id as int, payload: self.response@ }
    }
}

} // verus!
