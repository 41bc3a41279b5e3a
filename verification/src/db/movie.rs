use crate::db::{Creatable, Database, Insertable, Selectable};
use crate::error::{DbError, Error};
use crate::text::{dec_digits, format_usize, opt_str_view};
use crate::{Complete, EntityState, Incomplete, Loaded};
use core::marker::PhantomData;
use rusqlite::Error as SqliteError;
use rusqlite::OptionalExtension;
use vstd::prelude::*;

verus! {

/// The contents of one stored movie row, leaving out the identity:
/// catalog id, title, cut label, file path, runtime in minutes, release year.
pub type MovieRecord = (usize, Seq<char>, Option<Seq<char>>, Seq<char>, u32, u32);

/// What the movie table of the store holds: a map from durable identity to
/// row contents. Named here so that the contracts of insertion and selection
/// can speak about the same table.
pub uninterp spec fn movie_table(conn: rusqlite::Connection) -> Map<usize, MovieRecord>;

/// A movie record, parameterized by its lifecycle state. Fields meaningful
/// only from a given state on are absent (`None`) before it and present
/// (`Some`) from it onward; the constructors and transitions are the only
/// way to move between states.
pub struct Movie<T: EntityState> {
    pub tmdb_id: usize,
    pub title: String,
    pub release_year: u32,
    path: Option<String>,
    original_runtime: Option<u32>,
    cut: Option<String>,
    id: Option<usize>,
    _marker: PhantomData<T>,
}

pub type IncompleteMovie = Movie<Incomplete>;

pub type CompleteMovie = Movie<Complete>;

pub type LoadedMovie = Movie<Loaded>;

impl<T: EntityState> Movie<T> {
    pub closed spec fn spec_tmdb_id(self) -> usize {
        self.tmdb_id
    }

    pub closed spec fn spec_title(self) -> String {
        self.title
    }

    pub closed spec fn spec_release_year(self) -> u32 {
        self.release_year
    }

    pub closed spec fn spec_path(self) -> Option<String> {
        self.path
    }

    pub closed spec fn spec_runtime(self) -> Option<u32> {
        self.original_runtime
    }

    pub closed spec fn spec_cut(self) -> Option<String> {
        self.cut
    }

    pub closed spec fn spec_id(self) -> Option<usize> {
        self.id
    }

    /// The row contents this movie maps to when stored.
    pub closed spec fn record(self) -> MovieRecord {
        (
            self.tmdb_id,
            self.title@,
            opt_str_view(self.cut),
            match self.path {
                Some(p) => p@,
                None => Seq::empty(),
            },
            match self.original_runtime {
                Some(m) => m,
                None => 0u32,
            },
            self.release_year,
        )
    }
}

impl Movie<Incomplete> {
    /// Constructs the minimal record from catalog-known facts alone.
    pub fn new(tmdb_id: usize, title: String, release_year: u32) -> (m: Self)
        ensures
            m.spec_tmdb_id() == tmdb_id,
            m.spec_title() == title,
            m.spec_release_year() == release_year,
            m.spec_path() is None,
            m.spec_runtime() is None,
            m.spec_cut() is None,
            m.spec_id() is None,
    {
        Self {
            tmdb_id,
            title,
            release_year,
            cut: None,
            id: None,
            path: None,
            original_runtime: None,
            _marker: PhantomData,
        }
    }

    /// Records the runtime reported by the catalog; mutates in place and
    /// returns the receiver for chaining.
    pub fn set_runtime(&mut self, runtime: Option<u32>) -> (r: &mut Self)
        ensures
            r.spec_tmdb_id() == old(self).spec_tmdb_id(),
            r.spec_title() == old(self).spec_title(),
            r.spec_release_year() == old(self).spec_release_year(),
            r.spec_path() == old(self).spec_path(),
            r.spec_runtime() == runtime,
            r.spec_cut() == old(self).spec_cut(),
            r.spec_id() == old(self).spec_id(),
            *final(self) == *final(r),
    {
        self.original_runtime = runtime;
        self
    }

    /// The one-way transition to the `Complete` state: consumes the receiver
    /// and supplies the file path. The runtime must have been set first, so
    /// that every `Complete` movie carries one. Everything known before is
    /// kept unchanged.
    pub fn complete(self, path: String) -> (m: Movie<Complete>)
        requires
            self.spec_runtime() is Some,
        ensures
            m.wf(),
            m.spec_tmdb_id() == self.spec_tmdb_id(),
            m.spec_title() == self.spec_title(),
            m.spec_release_year() == self.spec_release_year(),
            m.spec_path() == Some(path),
            m.spec_runtime() == self.spec_runtime(),
            m.spec_cut() == self.spec_cut(),
            m.spec_id() is None,
    {
        Movie {
            path: Some(path),
            tmdb_id: self.tmdb_id,
            title: self.title,
            release_year: self.release_year,
            original_runtime: self.original_runtime,
            cut: self.cut,
            id: None,
            _marker: PhantomData,
        }
    }
}

impl Movie<Complete> {
    /// A `Complete` movie always carries a path and a runtime and never an
    /// identity; the transitions are the only constructors, and they
    /// establish this.
    pub closed spec fn wf(self) -> bool {
        self.path is Some && self.original_runtime is Some && self.id is None
    }

    pub fn path(&self) -> (r: &String)
        requires
            self.wf(),
        ensures
            self.spec_path() == Some(*r),
    {
        self.path.as_ref().unwrap()
    }

    pub fn original_runtime(&self) -> (r: &u32)
        requires
            self.wf(),
        ensures
            self.spec_runtime() == Some(*r),
    {
        self.original_runtime.as_ref().unwrap()
    }

    pub fn cut(&self) -> (r: &Option<String>)
        ensures
            *r == self.spec_cut(),
    {
        &self.cut
    }

    /// The sole mutation path for the alternate-cut label after completion.
    pub fn cut_mut(&mut self) -> (r: &mut Option<String>)
        ensures
            *r == old(self).spec_cut(),
            final(self).spec_cut() == *final(r),
            final(self).spec_tmdb_id() == old(self).spec_tmdb_id(),
            final(self).spec_title() == old(self).spec_title(),
            final(self).spec_release_year() == old(self).spec_release_year(),
            final(self).spec_path() == old(self).spec_path(),
            final(self).spec_runtime() == old(self).spec_runtime(),
            final(self).spec_id() == old(self).spec_id(),
    {
        &mut self.cut
    }
}

impl Movie<Loaded> {
    /// A `Loaded` movie carries everything, the durable identity included;
    /// selection is the only constructor, and it establishes this.
    pub closed spec fn wf(self) -> bool {
        self.path is Some && self.original_runtime is Some && self.id is Some
    }

    pub fn id(&self) -> (r: &usize)
        requires
            self.wf(),
        ensures
            self.spec_id() == Some(*r),
    {
        self.id.as_ref().unwrap()
    }

    pub fn path(&self) -> (r: &String)
        requires
            self.wf(),
        ensures
            self.spec_path() == Some(*r),
    {
        self.path.as_ref().unwrap()
    }

    pub fn original_runtime(&self) -> (r: &u32)
        requires
            self.wf(),
        ensures
            self.spec_runtime() == Some(*r),
    {
        self.original_runtime.as_ref().unwrap()
    }

    pub fn cut(&self) -> (r: &Option<String>)
        ensures
            *r == self.spec_cut(),
    {
        &self.cut
    }

    /// The one-line listing of a stored movie: identity and catalog id in
    /// brackets, then the title with its release year.
    pub open spec fn summary_text(self) -> Seq<char> {
        match self.spec_id() {
            Some(id) => "["@ + dec_digits(id as nat) + "/tmdb:"@ + dec_digits(
                self.spec_tmdb_id() as nat,
            ) + "] "@ + self.spec_title()@ + " ("@ + dec_digits(self.spec_release_year() as nat)
                + ")"@,
            None => Seq::empty(),
        }
    }

    pub fn summary(&self) -> (r: String)
        requires
            self.wf(),
        ensures
            r@ == self.summary_text(),
    {
        let mut s = String::from_str("[");
        s.append(format_usize(*self.id()).as_str());
        s.append("/tmdb:");
        s.append(format_usize(self.tmdb_id).as_str());
        s.append("] ");
        s.append(self.title.as_str());
        s.append(" (");
        s.append(format_usize(self.release_year as usize).as_str());
        s.append(")");
        proof {
            assert(s@ =~= self.summary_text());
        }
        s
    }
}

/// Law: round trip through the store. A `Loaded` movie whose row contents
/// equal those written for a `Complete` movie carries the same catalog id,
/// title, release year, file path, runtime, and cut label, and the identity
/// under which the row was stored.
pub proof fn lemma_movie_round_trip(c: Movie<Complete>, l: Movie<Loaded>, id: usize)
    requires
        c.wf(),
        l.wf(),
        l.spec_id() == Some(id),
        l.record() == c.record(),
    ensures
        l.spec_tmdb_id() == c.spec_tmdb_id(),
        l.spec_title()@ == c.spec_title()@,
        l.spec_release_year() == c.spec_release_year(),
        opt_str_view(l.spec_cut()) == opt_str_view(c.spec_cut()),
        l.spec_path() matches Some(lp) && (c.spec_path() matches Some(cp) && lp@ == cp@),
        l.spec_runtime() == c.spec_runtime(),
        l.spec_id() == Some(id),
{
    assert(l.record().1 == c.record().1);
    assert(l.record().4 == c.record().4);
}

/// One row of the movie table, as plain values.
struct MovieRow {
    id: usize,
    tmdb_id: usize,
    title: String,
    cut: Option<String>,
    path: String,
    original_runtime: u32,
    release_year: u32,
}

impl MovieRow {
    spec fn contents(self) -> MovieRecord {
        (self.tmdb_id, self.title@, opt_str_view(self.cut), self.path@, self.original_runtime, self.release_year)
    }
}

/// Relies on `rusqlite::Connection::execute` running the fixed INSERT, and on
/// the `last_insert_rowid` query on the same connection directly after. A
/// successful insert adds exactly one row under a fresh identity — `id` is
/// the primary key, so a clashing identity would make the INSERT itself fail
/// — and `last_insert_rowid` reports that identity. A failed INSERT changes
/// nothing; when only the identity query fails, the row is in, under some
/// fresh identity. The tvshow table is untouched either way.
#[verifier::external_body]
fn insert_movie_row(db: &mut Database, tmdb_id: usize, title: &String, cut: &Option<String>, path: &String, original_runtime: u32, release_year: u32) -> (r: Result<usize, SqliteError>)
    ensures
        crate::db::tvshow::tvshow_table(final(db).conn) == crate::db::tvshow::tvshow_table(old(db).conn),
        r matches Ok(id) ==> !movie_table(old(db).conn).contains_key(id) && movie_table(
            final(db).conn,
        ) == movie_table(old(db).conn).insert(
            id,
            (tmdb_id, title@, opt_str_view(*cut), path@, original_runtime, release_year),
        ),
        (r is Err) ==> movie_table(final(db).conn) == movie_table(old(db).conn) || (exists|k: usize|
            !movie_table(old(db).conn).contains_key(k) && movie_table(final(db).conn)
                == movie_table(old(db).conn).insert(
                k,
                (tmdb_id, title@, opt_str_view(*cut), path@, original_runtime, release_year),
            )),
{
    let res = db.conn.execute(
        "INSERT INTO `movie` (tmdb_id, title, cut, path, original_runtime, release_year) VALUES (?, ?, ?, ?, ?, ?)",
        (tmdb_id, title, cut, path, original_runtime, release_year),
    );
    match res {
        Ok(_) => db.conn.query_row("SELECT last_insert_rowid();", [], |row| row.get(0)),
        Err(e) => Err(e),
    }
}

/// Relies on `rusqlite::Connection::query_row` running the fixed SELECT by
/// identity, with `optional` mapping the no-row case to `None`: a row comes
/// back exactly when the table holds the identity, and it is that row; a
/// column of an unexpected type surfaces as the storage error it raises.
#[verifier::external_body]
fn select_movie_row(db: &Database, id: usize) -> (r: Result<Option<MovieRow>, SqliteError>)
    ensures
        r matches Ok(Some(m)) ==> m.id == id && movie_table(db.conn).contains_pair(
            id,
            m.contents(),
        ),
        r matches Ok(None) ==> !movie_table(db.conn).contains_key(id),
{
    db.conn.query_row("SELECT * FROM `movie` WHERE `id` = ?", [id], |row| {
        Ok(MovieRow { id: row.get(0)?, tmdb_id: row.get(1)?, title: row.get(2)?, cut: row.get(3)?, path: row.get(4)?, original_runtime: row.get(5)?, release_year: row.get(6)? })
    }).optional()
}

/// Relies on `rusqlite::Statement::query_map` running the fixed SELECT over
/// the whole movie table: on success every stored row comes back exactly
/// once, each under its identity; a column of an unexpected type surfaces as
/// the storage error it raises.
#[verifier::external_body]
fn list_movie_rows(db: &Database) -> (r: Result<Vec<MovieRow>, SqliteError>)
    ensures
        r matches Ok(v) ==> v@.len() == movie_table(db.conn).len() && (forall|i: int|
            #![trigger v@[i]]
            0 <= i < v@.len() ==> movie_table(db.conn).contains_pair(v@[i].id, v@[i].contents()))
            && (forall|i: int, j: int| 0 <= i < j < v@.len() ==> v@[i].id != v@[j].id),
{
    let mut stmt = db.conn.prepare("SELECT * FROM `movie`")?;
    let mapped = stmt.query_map([], |row| {
        Ok(MovieRow { id: row.get(0)?, tmdb_id: row.get(1)?, title: row.get(2)?, cut: row.get(3)?, path: row.get(4)?, original_runtime: row.get(5)?, release_year: row.get(6)? })
    })?;
    let mut vec = Vec::new();
    for row in mapped {
        vec.push(row?);
    }
    Ok(vec)
}

/// Reconstructs a `Loaded` movie from a stored row.
fn movie_from_row(row: &MovieRow) -> (m: Movie<Loaded>)
    ensures
        m.wf(),
        m.spec_id() == Some(row.id),
        m.record() == row.contents(),
{
    let cut = match &row.cut {
        Some(c) => Some(c.clone()),
        None => None,
    };
    Movie {
        id: Some(row.id),
        tmdb_id: row.tmdb_id,
        title: row.title.clone(),
        cut,
        path: Some(row.path.clone()),
        original_runtime: Some(row.original_runtime),
        release_year: row.release_year,
        _marker: PhantomData,
    }
}

impl<T: EntityState> Creatable<Movie<T>> for Database {
    fn create_table_sql() -> &'static str {
        "CREATE TABLE IF NOT EXISTS `movie` (
            `id` INTEGER PRIMARY KEY,
            `tmdb_id` INTEGER,
            `title` TEXT,
            `cut` TEXT,
            `path` TEXT,
            `original_runtime` INTEGER,
            `release_year` INTEGER
        );"
    }
}

impl Insertable<Movie<Complete>> for Database {
    open spec fn insert_pre(&self, object: &Movie<Complete>) -> bool {
        self.wf() && object.wf()
    }

    /// Writes one row for a `Complete` movie and returns the newly assigned
    /// identity. On success the movie table has grown by exactly that row,
    /// under an identity it did not hold before; every failure is reported as
    /// a storage error carrying its cause.
    fn insert(&mut self, object: Movie<Complete>) -> (r: Result<usize, Error>)
        ensures
            final(self).wf(),
            final(self).spec_tvshows() == old(self).spec_tvshows(),
            r matches Ok(id) ==> !old(self).spec_movies().contains_key(id) && final(self).spec_movies() == old(self).spec_movies().insert(id, object.record()) && final(self).spec_movies().len() == old(self).spec_movies().len() + 1,
            r matches Err(e) ==> e is Db,
            (r is Err) ==> final(self).spec_movies() == old(self).spec_movies() || (exists|k: usize|
                !old(self).spec_movies().contains_key(k) && final(self).spec_movies() == old(self).spec_movies().insert(k, object.record())),
    {
        let Movie { tmdb_id, title, cut, path, original_runtime, release_year, .. } = object;

        let path = path.unwrap();
        let original_runtime = original_runtime.unwrap();

        let res = insert_movie_row(self, tmdb_id, &title, &cut, &path, original_runtime, release_year);

        match res {
            Ok(id) => Ok(id),
            Err(e) => Err(Error::Db(DbError::Sqlite(e))),
        }
    }
}

/// What selection by identity promises of a movie it yields: a well-formed
/// `Loaded` entity reconstructing the row stored under that identity.
pub open spec fn movie_selected(db: Database, id: usize, m: Movie<Loaded>) -> bool {
    m.wf() && m.spec_id() == Some(id) && db.spec_movies().contains_pair(id, m.record())
}

/// What listing promises of the movies it yields: exactly as many entities as
/// the table holds rows, each a well-formed `Loaded` entity reconstructing a
/// stored row under its own identity, no identity twice.
pub open spec fn movies_listed(db: Database, s: Seq<Movie<Loaded>>) -> bool {
    s.len() == db.spec_movies().len() && (forall|i: int|
        #![trigger s[i]]
        0 <= i < s.len() ==> s[i].wf() && (s[i].spec_id() matches Some(n)
            && db.spec_movies().contains_pair(n, s[i].record()))) && (forall|i: int, j: int|
        0 <= i < j < s.len() ==> s[i].spec_id() != s[j].spec_id())
}

impl Selectable<Movie<Loaded>> for Database {
    /// Looks one movie up by identity. A movie comes back exactly when the
    /// table holds the identity, and it is the stored row reconstructed as a
    /// `Loaded` entity; an identity the table does not hold yields absence,
    /// not an error. Every failure is a storage error carrying its cause.
    fn select_by_id(&self, id: usize) -> (r: Result<Option<Movie<Loaded>>, Error>)
        ensures
            r matches Ok(Some(m)) ==> movie_selected(*self, id, m),
            r matches Ok(None) ==> !self.spec_movies().contains_key(id),
            r matches Err(e) ==> e is Db,
    {
        match select_movie_row(self, id) {
            Ok(Some(row)) => Ok(Some(movie_from_row(&row))),
            Ok(None) => Ok(None),
            Err(e) => Err(Error::Db(DbError::Sqlite(e))),
        }
    }

    /// Returns every stored movie as a `Loaded` entity, one per row, in
    /// storage-native order: exactly as many entities as the table holds
    /// rows, each reconstructing a stored row under its own identity, no
    /// identity twice.
    fn list_all(&self) -> (r: Result<Vec<Movie<Loaded>>, Error>)
        ensures
            r matches Ok(v) ==> movies_listed(*self, v@),
            r matches Err(e) ==> e is Db,
    {
        let rows = match list_movie_rows(self) {
            Ok(rows) => rows,
            Err(e) => return Err(Error::Db(DbError::Sqlite(e))),
        };

        let mut movies: Vec<Movie<Loaded>> = Vec::new();
        let mut i: usize = 0;
        while i < rows.len()
            invariant
                i == movies@.len(),
                i <= rows@.len(),
                (forall|k: int|
                    #![trigger movies@[k]]
                    0 <= k < i ==> movies@[k].wf() && movies@[k].spec_id() == Some(rows@[k].id)
                        && movies@[k].record() == rows@[k].contents()),
            decreases rows@.len() - i,
        {
            movies.push(movie_from_row(&rows[i]));
            i = i + 1;
        }

        Ok(movies)
    }
}

} // verus!
