use crate::db::movie::movie_table;
use crate::db::tvshow::tvshow_table;
use crate::error::{DbError, Error};
use rusqlite::Error as SqliteError;
use vstd::prelude::*;

pub mod movie;
pub mod tvshow;

verus! {

#[verifier::external_type_specification]
#[verifier::external_body]
pub struct ExConnection(rusqlite::Connection);

/// The store: owns the one connection to the backing relational file and
/// guarantees that the schema exists before first use.
///
/// The contracts of the operations on the store describe the contents of its
/// tables through `movie_table` and `tvshow_table`, spec-level maps from
/// durable identity to row contents. They assume the documented usage model:
/// one connection, one process; no other writer touches the file while the
/// store is open.
pub struct Database {
    conn: rusqlite::Connection,
}

impl Database {
    /// The backing tables hold finitely many rows.
    pub closed spec fn wf(self) -> bool {
        movie_table(self.conn).dom().finite() && tvshow_table(self.conn).dom().finite()
    }

    pub closed spec fn spec_movies(self) -> Map<usize, (usize, Seq<char>, Option<Seq<char>>, Seq<char>, u32, u32)> {
        movie_table(self.conn)
    }

    pub closed spec fn spec_tvshows(self) -> Map<usize, (usize, Seq<char>)> {
        tvshow_table(self.conn)
    }

    /// Opens (creating the file if absent) the backing store. When the freshly
    /// opened store holds no tables at all it is treated as new, and the
    /// schema of every known entity kind is created; a store that already has
    /// any table is treated as already initialized and left untouched.
    pub fn open(path: &str) -> (r: Result<Self, Error>)
        ensures
            r matches Ok(db) ==> db.wf(),
            r matches Err(e) ==> e is Db,
    {
        let conn = match open_connection(path) {
            Ok(c) => c,
            Err(e) => return Err(Error::Db(DbError::Sqlite(e))),
        };
        let db = Database { conn };

        let tables = match count_tables(&db) {
            Ok(n) => n,
            Err(e) => return Err(Error::Db(DbError::Sqlite(e))),
        };
        if tables == 0 {
            match create_schema(&db) {
                Ok(()) => {}
                Err(e) => return Err(Error::Db(DbError::Sqlite(e))),
            }
        }

        Ok(db)
    }
}

/// Relies on `rusqlite::Connection::open`: opens a connection to the database
/// file at `path`, creating the file if it does not exist. A relational file
/// holds finitely many rows in each table.
#[verifier::external_body]
fn open_connection(path: &str) -> (r: Result<rusqlite::Connection, SqliteError>)
    ensures
        r matches Ok(c) ==> movie_table(c).dom().finite() && tvshow_table(c).dom().finite(),
{
    rusqlite::Connection::open(path)
}

/// Relies on `rusqlite::Connection::query_row` running a COUNT over
/// `sqlite_schema`: reports how many tables the store holds. When it reports
/// zero, the store has neither a movie nor a tvshow table, hence no rows of
/// either kind.
#[verifier::external_body]
fn count_tables(db: &Database) -> (r: Result<usize, SqliteError>)
    ensures
        r matches Ok(n) && n == 0 ==> movie_table(db.conn).is_empty() && tvshow_table(
            db.conn,
        ).is_empty(),
{
    db.conn.query_row(
        "SELECT COUNT(name) FROM sqlite_schema WHERE type='table' ORDER BY name;",
        [],
        |row| row.get(0),
    )
}

/// Relies on `rusqlite::Connection::execute_batch` running the fixed DDL of
/// both entity kinds (the same text that `create_table_sql` reports). The
/// statements are CREATE TABLE IF NOT EXISTS, which never drop or change
/// rows, so the contents of both tables are untouched whatever the outcome.
#[verifier::external_body]
fn create_schema(db: &Database) -> (r: Result<(), SqliteError>) {
    db.conn.execute_batch(
        "CREATE TABLE IF NOT EXISTS `movie` (
            `id` INTEGER PRIMARY KEY,
            `tmdb_id` INTEGER,
            `title` TEXT,
            `cut` TEXT,
            `path` TEXT,
            `original_runtime` INTEGER,
            `release_year` INTEGER
        );
        CREATE TABLE IF NOT EXISTS `tvshow` (
            `id` INTEGER PRIMARY KEY,
            `tvmaze_id` INTEGER,
            `title` TEXT
        );",
    )
}

/// Capability of producing the fixed DDL text for an entity kind's table.
pub trait Creatable<T> {
    fn create_table_sql() -> &'static str;
}

/// Capability of writing one entity to the store. Only a `Complete`-state
/// entity may be inserted; the write returns the newly assigned identity.
pub trait Insertable<T> {
    /// What the store and the entity must satisfy before an insertion.
    spec fn insert_pre(&self, object: &T) -> bool;

    fn insert(&mut self, object: T) -> Result<usize, Error>
        requires
            old(self).insert_pre(&object),
    ;
}

/// Capability of reading entities back from the store; always yields
/// `Loaded`-state entities.
pub trait Selectable<T> {
    fn select_by_id(&self, id: usize) -> Result<Option<T>, Error>;

    fn list_all(&self) -> Result<Vec<T>, Error>;
}

} // verus!
