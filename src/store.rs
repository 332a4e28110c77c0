use vstd::prelude::*;

use crate::error::{Error, ErrorKind};
use crate::query::{statement_views, SqlQuery, StatementView};
use crate::text::{decimal_string, texts};

verus! {

#[verifier::external_type_specification]
#[verifier::external_body]
pub struct ExConnection(rusqlite::Connection);

#[verifier::external_type_specification]
#[verifier::external_body]
pub struct ExSqlValue(rusqlite::types::Value);

/// One column of a result row, as the database engine typed it. A floating
/// point value is carried as its decimal text.
#[derive(Debug)]
pub enum Cell {
    Null,
    Integer(i64),
    Real(String),
    Text(String),
    Blob(Vec<u8>),
}

/// An engine error as plain values: whether the engine refused the statement
/// for breaking a constraint, and its message.
pub struct SqlFailure {
    pub constraint: bool,
    pub message: String,
}

/// Relies on rusqlite::Connection::open: opens the database file at `path`,
/// creating it when it does not exist. An error is described by
/// rusqlite::Error::sqlite_error_code and its Display text.
#[verifier::external_body]
fn open_connection(path: &str) -> (r: Result<rusqlite::Connection, SqlFailure>) {
    rusqlite::Connection::open(path).map_err(|e| SqlFailure {
        constraint: e.sqlite_error_code() == Some(rusqlite::ErrorCode::ConstraintViolation),
        message: e.to_string(),
    })
}

/// Relies on rusqlite::Connection::execute: runs one statement with the
/// values bound, as text, to `?1`, `?2`, ... in order. An error is described
/// by rusqlite::Error::sqlite_error_code and its Display text.
#[verifier::external_body]
fn execute_statement(conn: &rusqlite::Connection, sql: &str, params: &Vec<String>) -> (r: Result<
    usize,
    SqlFailure,
>) {
    conn.execute(sql, rusqlite::params_from_iter(params.iter())).map_err(|e| SqlFailure {
        constraint: e.sqlite_error_code() == Some(rusqlite::ErrorCode::ConstraintViolation),
        message: e.to_string(),
    })
}

/// Relies on rusqlite::Connection::prepare, Statement::query_map and
/// Row::get: runs a query with the values bound, as text, to `?1`, `?2`, ...
/// and hands back each row as the values of its columns in order. An error
/// is described by rusqlite::Error::sqlite_error_code and its Display text.
#[verifier::external_body]
fn query_values(conn: &rusqlite::Connection, sql: &str, params: &Vec<String>) -> (r: Result<
    Vec<Vec<rusqlite::types::Value>>,
    SqlFailure,
>) {
    let rows: rusqlite::Result<Vec<Vec<rusqlite::types::Value>>> = conn.prepare(sql).and_then(|mut stmt| {
        let width = stmt.column_count();
        stmt.query_map(rusqlite::params_from_iter(params.iter()), |row| (0..width).map(|i| row.get(i)).collect())?.collect()
    });
    rows.map_err(|e| SqlFailure {
        constraint: e.sqlite_error_code() == Some(rusqlite::ErrorCode::ConstraintViolation),
        message: e.to_string(),
    })
}

/// Relies on the variants of rusqlite::types::Value: each becomes the cell
/// of the same type.
#[verifier::external_body]
fn cell_of(value: rusqlite::types::Value) -> (r: Cell) {
    match value {
        rusqlite::types::Value::Null => Cell::Null,
        rusqlite::types::Value::Integer(i) => Cell::Integer(i),
        rusqlite::types::Value::Real(x) => Cell::Real(x.to_string()),
        rusqlite::types::Value::Text(s) => Cell::Text(s),
        rusqlite::types::Value::Blob(b) => Cell::Blob(b),
    }
}

/// Relies on rusqlite::Connection::last_insert_rowid: the rowid of the most
/// recent successful INSERT on this connection.
#[verifier::external_body]
fn last_rowid(conn: &rusqlite::Connection) -> (r: i64) {
    conn.last_insert_rowid()
}

/// Turns an engine failure into the library's error, tagged with `location`.
pub fn engine_error(e: SqlFailure, location: &str) -> (r: Error)
    ensures
        r.kind == (if e.constraint {
            ErrorKind::ConstraintViolation
        } else {
            ErrorKind::Engine
        }),
        r.description@ == e.message@,
        r.location@ == location@,
{
    let kind = if e.constraint {
        ErrorKind::ConstraintViolation
    } else {
        ErrorKind::Engine
    };
    Error { kind, description: e.message, location: String::from_str(location) }
}

/// The one database handle. Every repository operation takes the store
/// explicitly; a write that spans several statements runs them in one
/// transaction.
pub struct SqlLibrary {
    conn: rusqlite::Connection,
    committed: Ghost<Seq<StatementView>>,
}

/// Converts every value of every row, keeping rows and columns in order.
fn cells_of(rows: Vec<Vec<rusqlite::types::Value>>) -> (r: Vec<Vec<Cell>>)
    ensures
        r@.len() == rows@.len(),
        forall|i: int| 0 <= i < rows@.len() ==> (#[trigger] r@[i])@.len() == rows@[i]@.len(),
{
    let mut out: Vec<Vec<Cell>> = Vec::new();
    let mut rest = rows;
    while rest.len() > 0
        invariant
            out@.len() + rest@.len() == rows@.len(),
            forall|j: int| 0 <= j < rest@.len() ==> #[trigger] rest@[j] == rows@[out@.len() + j],
            forall|j: int| 0 <= j < out@.len() ==> (#[trigger] out@[j])@.len() == rows@[j]@.len(),
        decreases rest@.len(),
    {
        let mut values = rest.remove(0);
        let ghost width = values@.len();
        let mut row: Vec<Cell> = Vec::new();
        while values.len() > 0
            invariant
                row@.len() + values@.len() == width,
            decreases values@.len(),
        {
            let v = values.remove(0);
            row.push(cell_of(v));
        }
        out.push(row);
    }
    out
}

impl SqlLibrary {
    /// The statements this handle has committed, in order, each with its
    /// parameters.
    pub closed spec fn history(&self) -> Seq<StatementView> {
        self.committed@
    }

    /// Opens the database at `path` (`:memory:` for a private in-memory one)
    /// and declares the schema on it.
    pub fn connect(path: &str) -> (r: Result<SqlLibrary, Error>)
        ensures
            r matches Err(e) ==> e.location@ == "connect"@ || e.location@ == "schema"@,
    {
        match open_connection(path) {
            Ok(conn) => {
                let mut store = SqlLibrary { conn, committed: Ghost(Seq::empty()) };
                match crate::schema::init_db(&mut store) {
                    Ok(()) => Ok(store),
                    Err(e) => Err(e),
                }
            },
            Err(e) => Err(engine_error(e, "connect")),
        }
    }

    /// Runs one statement.
    pub fn execute(&mut self, sql: &str, params: &Vec<String>, location: &str) -> (r: Result<
        usize,
        Error,
    >)
        ensures
            match r {
                Ok(_) => final(self).history() == old(self).history().push((sql@, texts(params@))),
                Err(e) => final(self).history() == old(self).history() && e.location@ == location@ && (
                e.kind is ConstraintViolation || e.kind is Engine),
            },
    {
        match execute_statement(&self.conn, sql, params) {
            Ok(n) => {
                self.committed = Ghost(self.committed@.push((sql@, texts(params@))));
                Ok(n)
            },
            Err(e) => Err(engine_error(e, location)),
        }
    }

    /// Runs one query and hands back its rows.
    pub fn query(&self, sql: &str, params: &Vec<String>, location: &str) -> (r: Result<
        Vec<Vec<Cell>>,
        Error,
    >)
        ensures
            r matches Err(e) ==> e.location@ == location@ && (e.kind is ConstraintViolation
                || e.kind is Engine),
    {
        match query_values(&self.conn, sql, params) {
            Ok(rows) => Ok(cells_of(rows)),
            Err(e) => Err(engine_error(e, location)),
        }
    }

    /// The rowid of the latest successful INSERT.
    pub fn last_insert_id(&self) -> (r: i64) {
        last_rowid(&self.conn)
    }

    /// Runs the statements in order inside one transaction: all of them take
    /// effect, or, when one fails, none does and the error says which one.
    pub fn transaction(&mut self, statements: &Vec<SqlQuery>, location: &str) -> (r: Result<(), Error>)
        ensures
            match r {
                Ok(()) => final(self).history() == old(self).history() + statement_views(statements@),
                Err(e) => final(self).history() == old(self).history() && e.kind is TransactionFailure
                    && e.location@ == location@,
            },
    {
        let none: Vec<String> = Vec::new();
        match execute_statement(&self.conn, "BEGIN", &none) {
            Ok(_) => {},
            Err(e) => {
                return Err(
                    Error {
                        kind: ErrorKind::TransactionFailure,
                        description: e.message,
                        location: String::from_str(location),
                    },
                );
            },
        }
        let n = statements.len();
        let mut i: usize = 0;
        while i < n
            invariant
                n == statements@.len(),
                i <= n,
            decreases n - i,
        {
            let s = &statements[i];
            match execute_statement(&self.conn, s.sql.as_str(), &s.params) {
                Ok(_) => {},
                Err(e) => {
                    let _ = execute_statement(&self.conn, "ROLLBACK", &none);
                    let mut description = String::from_str("statement ");
                    let index = decimal_string(i as u64);
                    description.append(index.as_str());
                    description.append(": ");
                    description.append(e.message.as_str());
                    return Err(
                        Error {
                            kind: ErrorKind::TransactionFailure,
                            description,
                            location: String::from_str(location),
                        },
                    );
                },
            }
            i = i + 1;
        }
        match execute_statement(&self.conn, "COMMIT", &none) {
            Ok(_) => {
                self.committed = Ghost(self.committed@ + statement_views(statements@));
                Ok(())
            },
            Err(e) => {
                let _ = execute_statement(&self.conn, "ROLLBACK", &none);
                Err(
                    Error {
                        kind: ErrorKind::TransactionFailure,
                        description: e.message,
                        location: String::from_str(location),
                    },
                )
            },
        }
    }
}

} // verus!
