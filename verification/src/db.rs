//! The SQLite connection pool, and the calls into `rusqlite`, `r2d2` and
//! `r2d2_sqlite` that run statements. What a statement returns depends on what
//! the database file holds, so each call only records, by a relation of its
//! own, which answer the database gave to which statement and values. Changes
//! go through [`Db`], which keeps the list of statements that changed rows,
//! each on its own or as one committed transaction ([`Tx`]).
use vstd::prelude::*;
use r2d2_sqlite::SqliteConnectionManager;
use crate::sql::{values, SqlArg, SqlValue};

verus! {

#[verifier::external_type_specification]
#[verifier::external_body]
pub struct ExConnection(rusqlite::Connection);

#[verifier::external_type_specification]
#[verifier::external_body]
pub struct ExSqlError(rusqlite::Error);

#[verifier::external_type_specification]
#[verifier::external_body]
pub struct ExManager(r2d2_sqlite::SqliteConnectionManager);

#[verifier::external_type_specification]
#[verifier::external_body]
pub struct ExTransaction<'conn>(rusqlite::Transaction<'conn>);

#[verifier::external_type_specification]
#[verifier::external_body]
pub struct ExValue(rusqlite::types::Value);

#[verifier::external_type_specification]
#[verifier::external_body]
pub struct ExPathBuf(std::path::PathBuf);

#[verifier::external_type_specification]
#[verifier::external_body]
pub struct ExPath(std::path::Path);

/// The pool gave a connection (`true`) or refused one (`false`).
pub uninterp spec fn pool_outcome(got: bool) -> bool;

/// A pool was built (`true`) or could not be (`false`).
pub uninterp spec fn pool_built(ok: bool) -> bool;

/// A transaction was begun (`true`) or refused (`false`).
pub uninterp spec fn begin_outcome(ok: bool) -> bool;

/// A transaction was committed (`true`) or not (`false`).
pub uninterp spec fn commit_outcome(ok: bool) -> bool;

/// The database ran the batch `sql` (`true`) or refused it (`false`).
pub uninterp spec fn batch_outcome(sql: Seq<char>, ok: bool) -> bool;

/// The database ran `sql` with `args` and changed that many rows (`Some`), or
/// refused it (`None`).
pub uninterp spec fn exec_outcome(sql: Seq<char>, args: Seq<SqlValue>, out: Option<int>) -> bool;

/// The database answered `sql` with `args` by this integer in the first column
/// of the first row (`Some`), or gave no such answer (`None`).
pub uninterp spec fn int_outcome(sql: Seq<char>, args: Seq<SqlValue>, out: Option<int>) -> bool;

/// The database answered `sql` with `args` by these rows, in order (`Some`),
/// or refused it (`None`).
pub uninterp spec fn rows_outcome(sql: Seq<char>, args: Seq<SqlValue>, out: Option<Seq<Seq<SqlValue>>>) -> bool;

/// An optional integer from a `Result`.
pub open spec fn opt_int<E>(r: Result<i64, E>) -> Option<int> {
    match r {
        Ok(v) => Some(v as int),
        Err(_) => None,
    }
}

/// A pool of SQLite connections (`r2d2::Pool`), held in a private field: the
/// pool type is generic over an outside trait, and its contents are never
/// read here.
#[verifier::external_body]
pub struct ConnPool {
    inner: r2d2::Pool<SqliteConnectionManager>,
}

/// A connection checked out of a [`ConnPool`] (`r2d2::PooledConnection`),
/// held the same way; it returns to the pool when dropped.
#[verifier::external_body]
pub struct PooledConn {
    inner: r2d2::PooledConnection<SqliteConnectionManager>,
}

/// Calls `r2d2_sqlite::SqliteConnectionManager::file`: a manager that opens
/// the database file at `path`. Nothing is claimed of it.
#[verifier::external_body]
pub(crate) fn file_manager(path: &std::path::Path) -> (m: SqliteConnectionManager) {
    SqliteConnectionManager::file(path)
}

/// Calls `SqliteConnectionManager::with_init` with a function that runs
/// [`execute_batch`] with `batch` on each new connection. Nothing is claimed
/// of the result.
#[verifier::external_body]
pub(crate) fn with_init_batch(m: SqliteConnectionManager, batch: &'static str) -> (r:
    SqliteConnectionManager) {
    m.with_init(move |c| execute_batch(c, batch))
}

/// Calls `r2d2::Pool::builder().max_size(max_size).build(m)`, turning the pool
/// error into `rusqlite::Error::ToSqlConversionFailure`. `max_size` must be
/// positive: the builder panics on zero. Whether the pool opens depends on the
/// file system; the outcome is recorded by [`pool_built`].
#[verifier::external_body]
pub(crate) fn build_pool(m: SqliteConnectionManager, max_size: u32) -> (r: Result<
    ConnPool,
    rusqlite::Error,
>)
    requires
        max_size > 0,
    ensures
        pool_built(r is Ok),
{
    r2d2::Pool::builder().max_size(max_size).build(m).map(|p| ConnPool { inner: p }).map_err(
        |e| rusqlite::Error::ToSqlConversionFailure(Box::new(e)),
    )
}

/// Calls `r2d2::Pool::get`, turning the pool error into
/// `rusqlite::Error::ToSqlConversionFailure`. The outcome is recorded by
/// [`pool_outcome`].
#[verifier::external_body]
pub(crate) fn pool_get(pool: &ConnPool) -> (r: Result<PooledConn, rusqlite::Error>)
    ensures
        pool_outcome(r is Ok),
{
    pool.inner.get().map(|c| PooledConn { inner: c }).map_err(
        |e| rusqlite::Error::ToSqlConversionFailure(Box::new(e)),
    )
}

/// Dereferences a pooled connection (`Deref for r2d2::PooledConnection`).
#[verifier::external_body]
pub(crate) fn conn_of(pc: &PooledConn) -> (c: &rusqlite::Connection) {
    &*pc.inner
}

/// Calls `rusqlite::Connection::transaction` on a pooled connection. The
/// outcome is recorded by [`begin_outcome`].
#[verifier::external_body]
fn begin(pc: &mut PooledConn) -> (r: Result<rusqlite::Transaction<'_>, rusqlite::Error>)
    ensures
        begin_outcome(r is Ok),
{
    pc.inner.transaction()
}

/// Dereferences a transaction to its connection (`Deref for rusqlite::Transaction`).
#[verifier::external_body]
fn tx_conn<'a>(tx: &'a rusqlite::Transaction<'_>) -> (c: &'a rusqlite::Connection) {
    &**tx
}

/// Calls `rusqlite::Transaction::commit`. The outcome is recorded by
/// [`commit_outcome`].
#[verifier::external_body]
fn commit(tx: rusqlite::Transaction<'_>) -> (r: Result<(), rusqlite::Error>)
    ensures
        commit_outcome(r is Ok),
{
    tx.commit()
}

/// Calls `rusqlite::Connection::execute_batch`. The outcome is recorded by
/// [`batch_outcome`].
#[verifier::external_body]
pub(crate) fn execute_batch(conn: &rusqlite::Connection, sql: &str) -> (r: Result<(), rusqlite::Error>)
    ensures
        batch_outcome(sql@, r is Ok),
{
    conn.execute_batch(sql)
}

/// The error that `rusqlite` itself reports for an integer it cannot use:
/// `rusqlite::Error::IntegralValueOutOfRange` for column 0 and the value.
#[verifier::external_body]
pub(crate) fn out_of_range(value: i64) -> (e: rusqlite::Error) {
    rusqlite::Error::IntegralValueOutOfRange(0, value)
}

/// The `rusqlite` value that an argument binds: text, integer or `NULL`.
#[verifier::external_body]
fn bound(a: &SqlArg) -> (v: rusqlite::types::Value) {
    match a {
        SqlArg::Text(s) => rusqlite::types::Value::Text(s.clone()),
        SqlArg::Int(i) => rusqlite::types::Value::Integer(*i),
        SqlArg::Null => rusqlite::types::Value::Null,
    }
}

/// Calls `rusqlite::Connection::execute` with `args` bound to `?1, ?2, ...`.
/// Its outcome, the count of changed rows or a refusal, is recorded by
/// [`exec_outcome`] for that statement and those values.
#[verifier::external_body]
fn execute(conn: &rusqlite::Connection, sql: &str, args: &Vec<SqlArg>) -> (r: Result<
    usize,
    rusqlite::Error,
>)
    ensures
        exec_outcome(
            sql@,
            values(args@),
            match r {
                Ok(n) => Some(n as int),
                Err(_) => None,
            },
        ),
{
    conn.execute(sql, rusqlite::params_from_iter(args.iter().map(bound)))
}

/// Calls `rusqlite::Connection::query_row` and reads the first column of the
/// row as an integer. Its outcome is recorded by [`int_outcome`] for that
/// statement and those values.
#[verifier::external_body]
pub(crate) fn query_i64(conn: &rusqlite::Connection, sql: &str, args: &Vec<SqlArg>) -> (r: Result<
    i64,
    rusqlite::Error,
>)
    ensures
        int_outcome(sql@, values(args@), opt_int(r)),
{
    conn.query_row(sql, rusqlite::params_from_iter(args.iter().map(bound)), |row| row.get(0))
}

/// Calls `rusqlite::Connection::prepare` and `Statement::query_map`, reading
/// each row as a (text, integer) pair, in the order of the rows. The rows, or
/// the refusal, are recorded by [`rows_outcome`].
#[verifier::external_body]
pub(crate) fn query_pairs(conn: &rusqlite::Connection, sql: &str, args: &Vec<SqlArg>) -> (r: Result<
    Vec<(String, i64)>,
    rusqlite::Error,
>)
    ensures
        rows_outcome(
            sql@,
            values(args@),
            match r {
                Ok(rows) => Some(crate::sql::pair_rows(rows@)),
                Err(_) => None,
            },
        ),
{
    let mut stmt = conn.prepare(sql)?;
    let rows = stmt.query_map(
        rusqlite::params_from_iter(args.iter().map(bound)),
        |row| Ok((row.get(0)?, row.get(1)?)),
    )?;
    rows.collect()
}

/// Calls `rusqlite::Connection::prepare` and `Statement::query_map`, reading
/// each row as a (text, text, integer) triple, in the order of the rows. The
/// rows, or the refusal, are recorded by [`rows_outcome`].
#[verifier::external_body]
pub(crate) fn query_triples(conn: &rusqlite::Connection, sql: &str, args: &Vec<SqlArg>) -> (r: Result<
    Vec<(String, String, i64)>,
    rusqlite::Error,
>)
    ensures
        rows_outcome(
            sql@,
            values(args@),
            match r {
                Ok(rows) => Some(crate::sql::triple_rows(rows@)),
                Err(_) => None,
            },
        ),
{
    let mut stmt = conn.prepare(sql)?;
    let rows = stmt.query_map(
        rusqlite::params_from_iter(args.iter().map(bound)),
        |row| Ok((row.get(0)?, row.get(1)?, row.get(2)?)),
    )?;
    rows.collect()
}

/// A statement as its text and the values bound to it.
pub type Stmt = (Seq<char>, Seq<SqlValue>);

/// A change made to the database: one statement run on its own, or the
/// statements of one committed transaction, in order.
pub enum Write {
    Single(Stmt),
    Batch(Seq<Stmt>),
}

/// A transaction on a pooled connection, with the statements that changed
/// rows in it so far.
pub struct Tx<'a> {
    tx: rusqlite::Transaction<'a>,
    ran: Ghost<Seq<Stmt>>,
}

impl<'a> Tx<'a> {
    /// The statements run in this transaction so far, in order.
    pub closed spec fn statements(&self) -> Seq<Stmt> {
        self.ran@
    }

    /// Begins a transaction on `pc`; nothing has run in it yet.
    pub fn begin(pc: &'a mut PooledConn) -> (r: Result<Tx<'a>, rusqlite::Error>)
        ensures
            begin_outcome(r is Ok),
            r matches Ok(t) ==> t.statements() == Seq::<Stmt>::empty(),
    {
        match begin(pc) {
            Ok(tx) => Ok(Tx { tx, ran: Ghost(Seq::empty()) }),
            Err(e) => Err(e),
        }
    }

    /// Runs `sql` with `args` in the transaction; a statement that ran is
    /// added to those of the transaction.
    pub fn execute(&mut self, sql: &str, args: &Vec<SqlArg>) -> (r: Result<usize, rusqlite::Error>)
        ensures
            exec_outcome(
                sql@,
                values(args@),
                match r {
                    Ok(n) => Some(n as int),
                    Err(_) => None,
                },
            ),
            final(self).statements() == match r {
                Ok(_) => old(self).statements().push((sql@, values(args@))),
                Err(_) => old(self).statements(),
            },
    {
        let r = execute(tx_conn(&self.tx), sql, args);
        if r.is_ok() {
            self.ran = Ghost(self.ran@.push((sql@, values(args@))));
        }
        r
    }

    /// Reads an integer in the transaction; nothing is changed.
    pub fn query_i64(&self, sql: &str, args: &Vec<SqlArg>) -> (r: Result<i64, rusqlite::Error>)
        ensures
            int_outcome(sql@, values(args@), opt_int(r)),
    {
        query_i64(tx_conn(&self.tx), sql, args)
    }
}

/// The database behind a connection pool, with the changes made through it
/// since it was opened.
pub struct Db {
    pool: ConnPool,
    log: Ghost<Seq<Write>>,
}

impl Db {
    /// The changes made through this handle since it was opened, in order:
    /// the statements that ran on their own and the transactions committed.
    pub closed spec fn writes(&self) -> Seq<Write> {
        self.log@
    }

    /// A handle on the database of `pool`; no change made through it yet.
    pub fn new(pool: ConnPool) -> (d: Db)
        ensures
            d.writes() == Seq::<Write>::empty(),
    {
        Db { pool, log: Ghost(Seq::empty()) }
    }

    /// A connection from the pool, for reading or for a transaction.
    pub fn conn(&self) -> (r: Result<PooledConn, rusqlite::Error>)
        ensures
            pool_outcome(r is Ok),
    {
        pool_get(&self.pool)
    }

    /// Runs one statement that changes rows on a connection of the pool; a
    /// statement that ran is added to the changes.
    pub fn write(&mut self, sql: &str, args: &Vec<SqlArg>) -> (r: Result<usize, rusqlite::Error>)
        ensures
            match r {
                Ok(n) => pool_outcome(true) && exec_outcome(sql@, values(args@), Some(n as int)),
                Err(_) => pool_outcome(false) || exec_outcome(sql@, values(args@), None),
            },
            final(self).writes() == match r {
                Ok(_) => old(self).writes().push(Write::Single((sql@, values(args@)))),
                Err(_) => old(self).writes(),
            },
    {
        let pc = match pool_get(&self.pool) {
            Ok(pc) => pc,
            Err(e) => return Err(e),
        };
        let r = execute(conn_of(&pc), sql, args);
        if r.is_ok() {
            self.log = Ghost(self.log@.push(Write::Single((sql@, values(args@)))));
        }
        r
    }

    /// Commits `tx`; once committed, its statements are added to the changes
    /// as one, else nothing of it is.
    pub fn commit(&mut self, tx: Tx<'_>) -> (r: Result<(), rusqlite::Error>)
        ensures
            commit_outcome(r is Ok),
            final(self).writes() == match r {
                Ok(_) => old(self).writes().push(Write::Batch(tx.statements())),
                Err(_) => old(self).writes(),
            },
    {
        let ghost ran = tx.statements();
        let r = commit(tx.tx);
        if r.is_ok() {
            self.log = Ghost(self.log@.push(Write::Batch(ran)));
        }
        r
    }
}

} // verus!
