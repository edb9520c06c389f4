//! The embedded relational store: a handle around the engine's connection, the
//! model of the two persisted tables, and the trusted statements run on them.
//!
//! The model treats the query table as its rows in stored (ascending rowid)
//! order and the response table as its rows in insertion order. The engine
//! normally assigns each new rowid above every one in use, so stored order and
//! insertion order agree as long as every stored id is below the machine
//! bound; at the bound the engine probes for a free rowid at random, and the
//! insert contract carries that proviso explicitly. Rows are never deleted,
//! and a result set ordered by id comes back in stored order.

use vstd::prelude::*;
use crate::error::CacheError;
use crate::model::{
    InternalResponse, Query, QueryRec, RespRec, id_above, id_fresh, ids_below_max, qrec,
};

verus! {

/// The engine's connection type, carried opaquely inside `Store`.
#[verifier::external_type_specification]
#[verifier::external_body]
pub struct ExConnection(rusqlite::Connection);

/// The rows of the query ledger table held by a connection, in stored
/// (ascending id) order.
pub uninterp spec fn query_rows(c: rusqlite::Connection) -> Seq<QueryRec>;

/// The rows of the response vault table held by a connection, in insertion order.
pub uninterp spec fn response_rows(c: rusqlite::Connection) -> Seq<RespRec>;

/// An open store: one connection to the database file (or to a private
/// in-memory database), with the three tables provisioned.
pub struct Store {
    conn: rusqlite::Connection,
}

/// What a store holds: the ledger rows and the vault rows, in insertion order.
pub ghost struct StoreModel {
    pub queries: Seq<QueryRec>,
    pub responses: Seq<RespRec>,
}

impl View for Store {
    type V = StoreModel;

    closed spec fn view(&self) -> StoreModel {
        StoreModel { queries: query_rows(self.conn), responses: response_rows(self.conn) }
    }
}

/// Relies on `rusqlite::Connection::open_with_flags`: opens an existing database
/// file read-write (no create), with the engine's internal mutex disabled.
/// Nothing is assumed about the rows already on disk.
#[verifier::external_body]
fn open_existing_rw(path: &str) -> Result<rusqlite::Connection, rusqlite::Error> {
    rusqlite::Connection::open_with_flags(
        path,
        rusqlite::OpenFlags::SQLITE_OPEN_READ_WRITE | rusqlite::OpenFlags::SQLITE_OPEN_NO_MUTEX,
    )
}

/// Relies on `rusqlite::Connection::open`: opens the database file, creating an
/// empty one when none exists. Nothing is assumed about the rows already on disk.
#[verifier::external_body]
fn open_or_create_file(path: &str) -> Result<rusqlite::Connection, rusqlite::Error> {
    rusqlite::Connection::open(path)
}

/// Relies on `rusqlite::Connection::open_in_memory`: a fresh private database
/// that no other connection shares, holding no tables and so no rows.
#[verifier::external_body]
fn open_memory() -> (r: Result<rusqlite::Connection, rusqlite::Error>)
    ensures
        r matches Ok(c) ==> query_rows(c) == Seq::<QueryRec>::empty() && response_rows(c)
            == Seq::<RespRec>::empty(),
{
    rusqlite::Connection::open_in_memory()
}

/// Relies on `rusqlite::Connection::execute` running a CREATE TABLE statement:
/// afterwards the query ledger table exists and holds no rows; other tables are
/// untouched. A failing statement changes nothing.
#[verifier::external_body]
fn create_query_table(c: &mut rusqlite::Connection) -> (r: Result<(), rusqlite::Error>)
    ensures
        r is Ok ==> query_rows(*final(c)) == Seq::<QueryRec>::empty() && response_rows(*final(c))
            == response_rows(*old(c)),
        r is Err ==> *final(c) == *old(c),
{
    match c.execute(
        "CREATE TABLE query (id INTEGER PRIMARY KEY, query TEXT, hits INT, time_first_request INT, time_last_request INT)",
        (),
    ) {
        Ok(_) => Ok(()),
        Err(e) => Err(e),
    }
}

/// Relies on `rusqlite::Connection::execute` running a CREATE TABLE statement:
/// afterwards the response vault table exists and holds no rows; other tables
/// are untouched. A failing statement changes nothing.
#[verifier::external_body]
fn create_response_table(c: &mut rusqlite::Connection) -> (r: Result<(), rusqlite::Error>)
    ensures
        r is Ok ==> response_rows(*final(c)) == Seq::<RespRec>::empty() && query_rows(*final(c))
            == query_rows(*old(c)),
        r is Err ==> *final(c) == *old(c),
{
    match c.execute("CREATE TABLE response (id INTEGER PRIMARY KEY, response BLOB)", ()) {
        Ok(_) => Ok(()),
        Err(e) => Err(e),
    }
}

/// Relies on `rusqlite::Connection::execute` running a CREATE TABLE statement:
/// provisions the credential table, which holds no modelled rows; the two
/// modelled tables are untouched. A failing statement changes nothing.
#[verifier::external_body]
fn create_token_table(c: &mut rusqlite::Connection) -> (r: Result<(), rusqlite::Error>)
    ensures
        r is Ok ==> query_rows(*final(c)) == query_rows(*old(c)) && response_rows(*final(c))
            == response_rows(*old(c)),
        r is Err ==> *final(c) == *old(c),
{
    match c.execute(
        "CREATE TABLE token (id INTEGER PRIMARY KEY, access_token TEXT, token_type TEXT, expires_in INTEGER, expires_at REAL)",
        (),
    ) {
        Ok(_) => Ok(()),
        Err(e) => Err(e),
    }
}

/// Relies on `rusqlite::Connection::execute` running an INSERT on the query
/// ledger: on success exactly one row with the given fields exists anew, under
/// an id that no stored row carries. The engine normally picks a rowid above
/// every one in use, so while every stored id is below the machine bound the
/// row lands last; at the bound the engine probes for a free rowid at random,
/// and the row lands at its id's place in stored order. A failing statement is
/// rolled back by the engine and changes nothing.
#[verifier::external_body]
fn insert_query_row(
    c: &mut rusqlite::Connection,
    key: &String,
    hits: i64,
    t_first: i64,
    t_last: i64,
) -> (r: Result<(), rusqlite::Error>)
    ensures
        r is Ok ==> exists|id: int, k: int|
            {
                &&& 0 <= k <= query_rows(*old(c)).len()
                &&& query_rows(*final(c)) == #[trigger] query_rows(*old(c)).insert(
                    k,
                    qrec(id, key@, hits as int, t_first as int, t_last as int),
                )
                &&& id_fresh(query_rows(*old(c)), id)
                &&& (ids_below_max(query_rows(*old(c))) ==> k == query_rows(*old(c)).len()
                    && id_above(query_rows(*old(c)), id))
            },
        r is Ok ==> response_rows(*final(c)) == response_rows(*old(c)),
        r is Err ==> *final(c) == *old(c),
{
    match c.execute(
        "INSERT INTO query (query, hits, time_first_request, time_last_request) VALUES (?1, ?2, ?3, ?4)",
        (key.as_str(), hits, t_first, t_last),
    ) {
        Ok(_) => Ok(()),
        Err(e) => Err(e),
    }
}

/// Relies on `rusqlite::Statement::query_map` over
/// `SELECT ... FROM query WHERE query = ?1 ORDER BY id`: on success the result
/// holds exactly the ledger rows whose key equals `key`, in stored (ascending
/// id) order. A row whose columns do not hold the expected types surfaces as
/// an error.
#[verifier::external_body]
fn select_query_rows(c: &rusqlite::Connection, key: &String) -> (r: Result<
    Vec<Query>,
    rusqlite::Error,
>)
    ensures
        r matches Ok(v) ==> v@.map_values(|q: Query| q@) == query_rows(*c).filter(
            |rec: QueryRec| rec.key == key@,
        ),
{
    let mut stmt = c.prepare(
        "SELECT id, query, hits, time_first_request, time_last_request FROM query WHERE query = ?1 ORDER BY id",
    )?;
    let rows = stmt.query_map((key.as_str(),), |row| {
        Ok(Query {
            id: row.get(0)?,
            query: row.get(1)?,
            hits: row.get(2)?,
            time_first_request: row.get(3)?,
            time_last_request: row.get(4)?,
        })
    })?;
    rows.collect()
}

/// Relies on `rusqlite::Connection::execute` running an UPDATE on the query
/// ledger: every row whose id equals `id` gets the new hit count and
/// last-request time; every other row and the vault are untouched. A failing
/// statement is rolled back by the engine and changes nothing.
#[verifier::external_body]
fn update_query_row(c: &mut rusqlite::Connection, id: i64, hits: i64, t_last: i64) -> (r: Result<
    (),
    rusqlite::Error,
>)
    ensures
        r is Ok ==> query_rows(*final(c)) == crate::model::bump_spec(
            query_rows(*old(c)),
            id as int,
            hits as int,
            t_last as int,
        ) && response_rows(*final(c)) == response_rows(*old(c)),
        r is Err ==> *final(c) == *old(c),
{
    match c.execute(
        "UPDATE query SET hits = ?2, time_last_request = ?3 WHERE id = ?1",
        (id, hits, t_last),
    ) {
        Ok(_) => Ok(()),
        Err(e) => Err(e),
    }
}

/// Relies on `rusqlite::Connection::execute` running an INSERT on the response
/// vault: on success exactly one row `(id, payload)` is appended and the ledger
/// is untouched. A failing statement (for one, a duplicate primary key) is
/// rolled back by the engine and changes nothing.
#[verifier::external_body]
fn insert_response_row(c: &mut rusqlite::Connection, id: i64, payload: &Vec<u8>) -> (r: Result<
    (),
    rusqlite::Error,
>)
    ensures
        r is Ok ==> response_rows(*final(c)) == response_rows(*old(c)).push(
            crate::model::rrec(id as int, payload@),
        ) && query_rows(*final(c)) == query_rows(*old(c)),
        r is Err ==> *final(c) == *old(c),
{
    match c.execute(
        "INSERT INTO response (id, response) VALUES (?1, ?2)",
        (id, payload.as_slice()),
    ) {
        Ok(_) => Ok(()),
        Err(e) => Err(e),
    }
}

/// Relies on `rusqlite::Statement::query_map` over
/// `SELECT ... FROM response WHERE id = ?1 ORDER BY id`: on success the result
/// holds exactly the vault rows stored under `id`, in insertion order.
#[verifier::external_body]
fn select_response_rows(c: &rusqlite::Connection, id: i64) -> (r: Result<
    Vec<InternalResponse>,
    rusqlite::Error,
>)
    ensures
        r matches Ok(v) ==> v@.map_values(|ir: InternalResponse| ir@) == response_rows(*c).filter(
            |rec: RespRec| rec.id == id as int,
        ),
{
    let mut stmt = c.prepare("SELECT id, response FROM response WHERE id = ?1 ORDER BY id")?;
    let rows = stmt.query_map((id,), |row| {
        Ok(InternalResponse { id: row.get(0)?, response: row.get(1)? })
    })?;
    rows.collect()
}

impl Store {
    pub(crate) fn select_queries(&self, key: &String) -> (r: Result<Vec<Query>, CacheError>)
        ensures
            r matches Ok(v) ==> v@.map_values(|q: Query| q@) == self@.queries.filter(
                |rec: QueryRec| rec.key == key@,
            ),
            r matches Err(e) ==> e is Store,
    {
        match select_query_rows(&self.conn, key) {
            Ok(v) => Ok(v),
            Err(e) => Err(CacheError::Store(e)),
        }
    }

    pub(crate) fn append_query(&mut self, key: &String, hits: i64, t_first: i64, t_last: i64) -> (r:
        Result<(), CacheError>)
        ensures
            r is Ok ==> exists|id: int, k: int|
                {
                    &&& 0 <= k <= old(self)@.queries.len()
                    &&& final(self)@.queries == #[trigger] old(self)@.queries.insert(
                        k,
                        qrec(id, key@, hits as int, t_first as int, t_last as int),
                    )
                    &&& id_fresh(old(self)@.queries, id)
                    &&& (ids_below_max(old(self)@.queries) ==> k == old(self)@.queries.len()
                        && id_above(old(self)@.queries, id))
                },
            r is Ok ==> final(self)@.responses == old(self)@.responses,
            r matches Err(e) ==> final(self)@ == old(self)@ && e is Store,
    {
        let ghost pre = self@.queries;
        match insert_query_row(&mut self.conn, key, hits, t_first, t_last) {
            Ok(()) => {
                proof {
                    let (id, k): (int, int) = choose|id: int, k: int|
                        {
                            &&& 0 <= k <= pre.len()
                            &&& self@.queries == #[trigger] pre.insert(
                                k,
                                qrec(id, key@, hits as int, t_first as int, t_last as int),
                            )
                            &&& id_fresh(pre, id)
                            &&& (ids_below_max(pre) ==> k == pre.len() && id_above(pre, id))
                        };
                    assert(self@.queries == pre.insert(
                        k,
                        qrec(id, key@, hits as int, t_first as int, t_last as int),
                    ));
                }
                Ok(())
            },
            Err(e) => Err(CacheError::Store(e)),
        }
    }

    pub(crate) fn rewrite_query(&mut self, id: i64, hits: i64, t_last: i64) -> (r: Result<
        (),
        CacheError,
    >)
        ensures
            r is Ok ==> final(self)@.queries == crate::model::bump_spec(
                old(self)@.queries,
                id as int,
                hits as int,
                t_last as int,
            ) && final(self)@.responses == old(self)@.responses,
            r matches Err(e) ==> final(self)@ == old(self)@ && e is Store,
    {
        match update_query_row(&mut self.conn, id, hits, t_last) {
            Ok(()) => Ok(()),
            Err(e) => Err(CacheError::Store(e)),
        }
    }

    pub(crate) fn append_response(&mut self, id: i64, payload: &Vec<u8>) -> (r: Result<
        (),
        CacheError,
    >)
        ensures
            r is Ok ==> final(self)@.responses == old(self)@.responses.push(
                crate::model::rrec(id as int, payload@),
            ) && final(self)@.queries == old(self)@.queries,
            r matches Err(e) ==> final(self)@ == old(self)@ && e is Store,
    {
        match insert_response_row(&mut self.conn, id, payload) {
            Ok(()) => Ok(()),
            Err(e) => Err(CacheError::Store(e)),
        }
    }

    pub(crate) fn select_responses(&self, id: i64) -> (r: Result<Vec<InternalResponse>, CacheError>)
        ensures
            r matches Ok(v) ==> v@.map_values(|ir: InternalResponse| ir@)
                == self@.responses.filter(|rec: RespRec| rec.id == id as int),
            r matches Err(e) ==> e is Store,
    {
        match select_response_rows(&self.conn, id) {
            Ok(v) => Ok(v),
            Err(e) => Err(CacheError::Store(e)),
        }
    }
}

/// Opens the store file at `path`, creating it and provisioning the three
/// tables when it cannot be opened read-write. Nothing is known of the rows an
/// existing file holds; any engine failure surfaces as a `Store` error.
pub fn init_db(path: &str) -> (r: Result<Store, CacheError>)
    ensures
        r matches Err(e) ==> e is Store,
{
    match open_existing_rw(path) {
        Ok(conn) => Ok(Store { conn }),
        Err(_) => match open_or_create_file(path) {
            Ok(mut conn) => {
                match create_query_table(&mut conn) {
                    Ok(()) => (),
                    Err(e) => {
                        return Err(CacheError::Store(e));
                    },
                }
                match create_response_table(&mut conn) {
                    Ok(()) => (),
                    Err(e) => {
                        return Err(CacheError::Store(e));
                    },
                }
                match create_token_table(&mut conn) {
                    Ok(()) => (),
                    Err(e) => {
                        return Err(CacheError::Store(e));
                    },
                }
                Ok(Store { conn })
            },
            Err(e) => Err(CacheError::Store(e)),
        },
    }
}

/// Opens a fresh private in-memory store with the three tables provisioned and
/// no rows: both modelled tables start empty.
pub fn init_db_in_memory() -> (r: Result<Store, CacheError>)
    ensures
        r matches Ok(s) ==> s@.queries == Seq::<QueryRec>::empty() && s@.responses
            == Seq::<RespRec>::empty(),
        r matches Err(e) ==> e is Store,
{
    match open_memory() {
        Ok(mut conn) => {
            match create_query_table(&mut conn) {
                Ok(()) => (),
                Err(e) => {
                    return Err(CacheError::Store(e));
                },
            }
            match create_response_table(&mut conn) {
                Ok(()) => (),
                Err(e) => {
                    return Err(CacheError::Store(e));
                },
            }
            match create_token_table(&mut conn) {
                Ok(()) => (),
                Err(e) => {
                    return Err(CacheError::Store(e));
                },
            }
            Ok(Store { conn })
        },
        Err(e) => Err(CacheError::Store(e)),
    }
}

} // verus!
