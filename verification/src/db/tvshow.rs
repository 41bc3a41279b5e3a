use crate::db::{Creatable, Database, Insertable, Selectable};
use crate::error::{DbError, Error};
use crate::{Complete, EntityState, Incomplete, Loaded};
use core::marker::PhantomData;
use rusqlite::Error as SqliteError;
use rusqlite::OptionalExtension;
use vstd::prelude::*;

verus! {

/// The contents of one stored tvshow row, leaving out the identity:
/// catalog id and title.
pub type TvShowRecord = (usize, Seq<char>);

/// What the tvshow table of the store holds: a map from durable identity to
/// row contents.
pub uninterp spec fn tvshow_table(conn: rusqlite::Connection) -> Map<usize, TvShowRecord>;

/// A television-show record, parameterized by its lifecycle state. Television
/// support is deliberately minimal — a template to extend, structurally
/// analogous to the movie entity.
pub struct TvShow<T: EntityState> {
    pub tvmaze_id: usize,
    pub title: String,
    id: Option<usize>,
    _marker: PhantomData<T>,
}

pub type IncompleteTvShow = TvShow<Incomplete>;

pub type CompleteTvShow = TvShow<Complete>;

pub type LoadedTvShow = TvShow<Loaded>;

impl<T: EntityState> TvShow<T> {
    pub closed spec fn spec_tvmaze_id(self) -> usize {
        self.tvmaze_id
    }

    pub closed spec fn spec_title(self) -> String {
        self.title
    }

    pub closed spec fn spec_id(self) -> Option<usize> {
        self.id
    }

    /// The row contents this show maps to when stored.
    pub closed spec fn record(self) -> TvShowRecord {
        (self.tvmaze_id, self.title@)
    }
}

impl TvShow<Incomplete> {
    /// Constructs the minimal record from catalog-known facts alone.
    pub fn new(tvmaze_id: usize, title: String) -> (s: Self)
        ensures
            s.spec_tvmaze_id() == tvmaze_id,
            s.spec_title() == title,
            s.spec_id() is None,
    {
        Self { tvmaze_id, title, id: None, _marker: PhantomData }
    }

    /// The one-way transition to the `Complete` state; a show needs no
    /// enrichment beyond its catalog facts, so nothing is supplied.
    pub fn complete(self) -> (s: TvShow<Complete>)
        ensures
            s.wf(),
            s.spec_tvmaze_id() == self.spec_tvmaze_id(),
            s.spec_title() == self.spec_title(),
            s.spec_id() is None,
    {
        TvShow { tvmaze_id: self.tvmaze_id, title: self.title, id: None, _marker: PhantomData }
    }
}

impl TvShow<Complete> {
    /// A `Complete` show never carries an identity.
    pub closed spec fn wf(self) -> bool {
        self.id is None
    }
}

impl TvShow<Loaded> {
    /// A `Loaded` show always carries its durable identity.
    pub closed spec fn wf(self) -> bool {
        self.id is Some
    }
}

/// Law: round trip through the store. A `Loaded` show whose row contents
/// equal those written for a `Complete` show carries the same catalog id and
/// title, and the identity under which the row was stored.
pub proof fn lemma_tvshow_round_trip(c: TvShow<Complete>, l: TvShow<Loaded>, id: usize)
    requires
        c.wf(),
        l.wf(),
        l.spec_id() == Some(id),
        l.record() == c.record(),
    ensures
        l.spec_tvmaze_id() == c.spec_tvmaze_id(),
        l.spec_title()@ == c.spec_title()@,
        l.spec_id() == Some(id),
{
    assert(l.record().1 == c.record().1);
}

/// One row of the tvshow table, as plain values.
struct TvShowRow {
    id: usize,
    tvmaze_id: usize,
    title: String,
}

impl TvShowRow {
    spec fn contents(self) -> TvShowRecord {
        (self.tvmaze_id, self.title@)
    }
}

/// Relies on `rusqlite::Connection::execute` running the fixed INSERT, and on
/// the `last_insert_rowid` query on the same connection directly after. A
/// successful insert adds exactly one row under a fresh identity — `id` is
/// the primary key, so a clashing identity would make the INSERT itself fail
/// — and `last_insert_rowid` reports that identity. A failed INSERT changes
/// nothing; when only the identity query fails, the row is in, under some
/// fresh identity. The movie table is untouched either way.
#[verifier::external_body]
fn insert_tvshow_row(db: &mut Database, tvmaze_id: usize, title: &String) -> (r: Result<
    usize,
    SqliteError,
>)
    ensures
        crate::db::movie::movie_table(final(db).conn) == crate::db::movie::movie_table(
            old(db).conn,
        ),
        r matches Ok(id) ==> !tvshow_table(old(db).conn).contains_key(id) && tvshow_table(
            final(db).conn,
        ) == tvshow_table(old(db).conn).insert(id, (tvmaze_id, title@)),
        (r is Err) ==> tvshow_table(final(db).conn) == tvshow_table(old(db).conn) || (exists|
            k: usize,
        |
            !tvshow_table(old(db).conn).contains_key(k) && tvshow_table(final(db).conn)
                == tvshow_table(old(db).conn).insert(k, (tvmaze_id, title@))),
{
    let res = db.conn.execute(
        "INSERT INTO `tvshow` (tvmaze_id, title) VALUES (?, ?)",
        (tvmaze_id, title),
    );
    match res {
        Ok(_) => db.conn.query_row("SELECT last_insert_rowid();", [], |row| row.get(0)),
        Err(e) => Err(e),
    }
}

/// Relies on `rusqlite::Connection::query_row` running the fixed SELECT by
/// identity, with `optional` mapping the no-row case to `None`: a row comes
/// back exactly when the table holds the identity, and it is that row.
#[verifier::external_body]
fn select_tvshow_row(db: &Database, id: usize) -> (r: Result<Option<TvShowRow>, SqliteError>)
    ensures
        r matches Ok(Some(s)) ==> s.id == id && tvshow_table(db.conn).contains_pair(
            id,
            s.contents(),
        ),
        r matches Ok(None) ==> !tvshow_table(db.conn).contains_key(id),
{
    db.conn.query_row("SELECT * FROM `tvshow` WHERE `id` = ?", [id], |row| {
        Ok(TvShowRow { id: row.get(0)?, tvmaze_id: row.get(1)?, title: row.get(2)? })
    }).optional()
}

/// Relies on `rusqlite::Statement::query_map` running the fixed SELECT over
/// the whole tvshow table: on success every stored row comes back exactly
/// once, each under its identity.
#[verifier::external_body]
fn list_tvshow_rows(db: &Database) -> (r: Result<Vec<TvShowRow>, SqliteError>)
    ensures
        r matches Ok(v) ==> v@.len() == tvshow_table(db.conn).len() && (forall|i: int|
            #![trigger v@[i]]
            0 <= i < v@.len() ==> tvshow_table(db.conn).contains_pair(v@[i].id, v@[i].contents()))
            && (forall|i: int, j: int| 0 <= i < j < v@.len() ==> v@[i].id != v@[j].id),
{
    let mut stmt = db.conn.prepare("SELECT * FROM `tvshow`")?;
    let mapped = stmt.query_map([], |row| {
        Ok(TvShowRow { id: row.get(0)?, tvmaze_id: row.get(1)?, title: row.get(2)? })
    })?;
    let mut vec = Vec::new();
    for row in mapped {
        vec.push(row?);
    }
    Ok(vec)
}

/// Reconstructs a `Loaded` show from a stored row.
fn tvshow_from_row(row: &TvShowRow) -> (s: TvShow<Loaded>)
    ensures
        s.wf(),
        s.spec_id() == Some(row.id),
        s.record() == row.contents(),
{
    TvShow {
        id: Some(row.id),
        tvmaze_id: row.tvmaze_id,
        title: row.title.clone(),
        _marker: PhantomData,
    }
}

impl<T: EntityState> Creatable<TvShow<T>> for Database {
    fn create_table_sql() -> &'static str {
        "CREATE TABLE IF NOT EXISTS `tvshow` (
            `id` INTEGER PRIMARY KEY,
            `tvmaze_id` INTEGER,
            `title` TEXT
        );"
    }
}

impl Insertable<TvShow<Complete>> for Database {
    open spec fn insert_pre(&self, object: &TvShow<Complete>) -> bool {
        self.wf() && object.wf()
    }

    /// Writes one row for a `Complete` show and returns the newly assigned
    /// identity. On success the tvshow table has grown by exactly that row,
    /// under an identity it did not hold before; every failure is reported as
    /// a storage error carrying its cause.
    fn insert(&mut self, object: TvShow<Complete>) -> (r: Result<usize, Error>)
        ensures
            final(self).wf(),
            final(self).spec_movies() == old(self).spec_movies(),
            r matches Ok(id) ==> !old(self).spec_tvshows().contains_key(id) && final(self).spec_tvshows() == old(self).spec_tvshows().insert(id, object.record()) && final(self).spec_tvshows().len() == old(self).spec_tvshows().len() + 1,
            r matches Err(e) ==> e is Db,
            (r is Err) ==> final(self).spec_tvshows() == old(self).spec_tvshows() || (exists|
                k: usize,
            |
                !old(self).spec_tvshows().contains_key(k) && final(self).spec_tvshows() == old(self).spec_tvshows().insert(k, object.record())),
    {
        let TvShow { tvmaze_id, title, .. } = object;

        let res = insert_tvshow_row(self, tvmaze_id, &title);

        match res {
            Ok(id) => Ok(id),
            Err(e) => Err(Error::Db(DbError::Sqlite(e))),
        }
    }
}

/// What selection by identity promises of a show it yields: a well-formed
/// `Loaded` entity reconstructing the row stored under that identity.
pub open spec fn tvshow_selected(db: Database, id: usize, s: TvShow<Loaded>) -> bool {
    s.wf() && s.spec_id() == Some(id) && db.spec_tvshows().contains_pair(id, s.record())
}

/// What listing promises of the shows it yields: exactly as many entities as
/// the table holds rows, each a well-formed `Loaded` entity reconstructing a
/// stored row under its own identity, no identity twice.
pub open spec fn tvshows_listed(db: Database, s: Seq<TvShow<Loaded>>) -> bool {
    s.len() == db.spec_tvshows().len() && (forall|i: int|
        #![trigger s[i]]
        0 <= i < s.len() ==> s[i].wf() && (s[i].spec_id() matches Some(n)
            && db.spec_tvshows().contains_pair(n, s[i].record()))) && (forall|i: int, j: int|
        0 <= i < j < s.len() ==> s[i].spec_id() != s[j].spec_id())
}

impl Selectable<TvShow<Loaded>> for Database {
    /// Looks one show up by identity. A show comes back exactly when the
    /// table holds the identity, and it is the stored row reconstructed as a
    /// `Loaded` entity; an identity the table does not hold yields absence,
    /// not an error.
    fn select_by_id(&self, id: usize) -> (r: Result<Option<TvShow<Loaded>>, Error>)
        ensures
            r matches Ok(Some(s)) ==> tvshow_selected(*self, id, s),
            r matches Ok(None) ==> !self.spec_tvshows().contains_key(id),
            r matches Err(e) ==> e is Db,
    {
        match select_tvshow_row(self, id) {
            Ok(Some(row)) => Ok(Some(tvshow_from_row(&row))),
            Ok(None) => Ok(None),
            Err(e) => Err(Error::Db(DbError::Sqlite(e))),
        }
    }

    /// Returns every stored show as a `Loaded` entity, one per row, in
    /// storage-native order.
    fn list_all(&self) -> (r: Result<Vec<TvShow<Loaded>>, Error>)
        ensures
            r matches Ok(v) ==> tvshows_listed(*self, v@),
            r matches Err(e) ==> e is Db,
    {
        let rows = match list_tvshow_rows(self) {
            Ok(rows) => rows,
            Err(e) => return Err(Error::Db(DbError::Sqlite(e))),
        };

        let mut shows: Vec<TvShow<Loaded>> = Vec::new();
        let mut i: usize = 0;
        while i < rows.len()
            invariant
                i == shows@.len(),
                i <= rows@.len(),
                (forall|k: int|
                    #![trigger shows@[k]]
                    0 <= k < i ==> shows@[k].wf() && shows@[k].spec_id() == Some(rows@[k].id)
                        && shows@[k].record() == rows@[k].contents()),
            decreases rows@.len() - i,
        {
            shows.push(tvshow_from_row(&rows[i]));
            i = i + 1;
        }

        Ok(shows)
    }
}

} // verus!
