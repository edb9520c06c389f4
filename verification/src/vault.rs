//! The response vault: the stored payload bytes, keyed by the owning query's id.

use vstd::prelude::*;
use crate::digits::{dec_str, i64_to_string};
use crate::error::CacheError;
use crate::model::{InternalResponse, RespRec, fetch_spec, rrec};
use crate::store::Store;

verus! {

/// Appends a vault row holding `payload` under `id`. No check against the
/// ledger is made here: referential integrity is the caller's business.
pub fn store(s: &mut Store, id: i64, payload: &Vec<u8>) -> (r: Result<(), CacheError>)
    ensures
        r is Ok ==> final(s)@.responses == old(s)@.responses.push(rrec(id as int, payload@))
            && final(s)@.queries == old(s)@.queries,
        r matches Err(e) ==> final(s)@ == old(s)@ && e is Store,
{
    s.append_response(id, payload)
}

/// Fetches the authoritative vault row for `id`: the most recently stored
/// matching row. A miss surfaces as `NoResponseCache` carrying the stringified
/// id; only the engine itself can fail otherwise.
pub fn fetch(s: &Store, id: i64) -> (r: Result<InternalResponse, CacheError>)
    ensures
        r matches Ok(ir) ==> fetch_spec(s@.responses, id as int) == Some(ir@) && ir.id == id,
        r matches Err(e) ==> match e {
            CacheError::NoResponseCache(k) => k@ == dec_str(id as int) && fetch_spec(
                s@.responses,
                id as int,
            ) is None,
            CacheError::Store(_) => true,
            _ => false,
        },
{
    let mut rows = match s.select_responses(id) {
        Ok(v) => v,
        Err(e) => {
            return Err(e);
        },
    };
    let ghost pred = |rec: RespRec| rec.id == id as int;
    let ghost m = s@.responses.filter(pred);
    let ghost n = rows@.len();
    match rows.pop() {
        Some(ir) => {
            proof {
                assert(m.len() == n);
                assert(m.last() == ir@);
                s@.responses.lemma_filter_pred(pred, m.len() - 1);
            }
            Ok(ir)
        },
        None => {
            proof {
                assert(m.len() == 0);
            }
            Err(CacheError::NoResponseCache(i64_to_string(id)))
        },
    }
}

} // verus!
