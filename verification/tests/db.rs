use libmm::db::movie::{IncompleteMovie, LoadedMovie, Movie};
use libmm::db::tvshow::{LoadedTvShow, TvShow};
use libmm::db::{Database, Insertable, Selectable};
use libmm::error::Error;

fn temp_store(dir: &tempfile::TempDir) -> String {
    dir.path()
        .join("media.db")
        .to_string_lossy()
        .into_owned()
}

fn matrix() -> IncompleteMovie {
    let mut movie = Movie::new(603, String::from("The Matrix"), 1999);
    movie.set_runtime(Some(136));
    movie
}

#[test]
fn insert_assigns_first_identity_and_select_finds_it() {
    let dir = tempfile::tempdir().unwrap();
    let mut db = Database::open(&temp_store(&dir)).unwrap();

    let movie = matrix().complete(String::from("/media/matrix.mkv"));
    let id = db.insert(movie).unwrap();
    assert_eq!(id, 1);

    let loaded: LoadedMovie = db.select_by_id(1).unwrap().expect("row must be there");
    assert_eq!(*loaded.id(), 1);
    assert_eq!(loaded.tmdb_id, 603);
    assert_eq!(loaded.title, "The Matrix");
    assert_eq!(loaded.release_year, 1999);
    assert_eq!(loaded.path(), "/media/matrix.mkv");
    assert_eq!(*loaded.original_runtime(), 136);
    assert_eq!(*loaded.cut(), None);

    let absent: Option<LoadedMovie> = db.select_by_id(2).unwrap();
    assert!(absent.is_none());
}

#[test]
fn absent_identity_is_absence_not_error() {
    let dir = tempfile::tempdir().unwrap();
    let db = Database::open(&temp_store(&dir)).unwrap();
    let found: Option<LoadedMovie> = db.select_by_id(41).unwrap();
    assert!(found.is_none());
}

#[test]
fn cut_label_survives_the_round_trip() {
    let dir = tempfile::tempdir().unwrap();
    let mut db = Database::open(&temp_store(&dir)).unwrap();

    let mut movie = matrix().complete(String::from("/media/matrix.mkv"));
    *movie.cut_mut() = Some(String::from("Director's Cut"));
    assert_eq!(*movie.cut(), Some(String::from("Director's Cut")));
    let id = db.insert(movie).unwrap();

    let loaded: LoadedMovie = db.select_by_id(id).unwrap().unwrap();
    assert_eq!(*loaded.cut(), Some(String::from("Director's Cut")));

    let plain = matrix().complete(String::from("/media/matrix.mkv"));
    let id = db.insert(plain).unwrap();
    let loaded: LoadedMovie = db.select_by_id(id).unwrap().unwrap();
    assert_eq!(*loaded.cut(), None);
}

#[test]
fn list_all_returns_every_insertion() {
    let dir = tempfile::tempdir().unwrap();
    let mut db = Database::open(&temp_store(&dir)).unwrap();

    let empty: Vec<LoadedMovie> = db.list_all().unwrap();
    assert!(empty.is_empty());

    let titles = ["One", "Two", "Three"];
    for (i, title) in titles.iter().enumerate() {
        let mut movie = Movie::new(100 + i, title.to_string(), 2000 + i as u32);
        movie.set_runtime(Some(90 + i as u32));
        let id = db
            .insert(movie.complete(format!("/media/{title}.mkv")))
            .unwrap();
        assert_eq!(id, i + 1);
    }

    let movies: Vec<LoadedMovie> = db.list_all().unwrap();
    assert_eq!(movies.len(), 3);
    for (i, title) in titles.iter().enumerate() {
        let movie = movies.iter().find(|m| m.title == *title).unwrap();
        assert_eq!(movie.tmdb_id, 100 + i);
        assert_eq!(movie.release_year, 2000 + i as u32);
        assert_eq!(movie.path(), &format!("/media/{title}.mkv"));
        assert_eq!(*movie.original_runtime(), 90 + i as u32);
    }
}

#[test]
fn reopening_keeps_the_store_as_it_was() {
    let dir = tempfile::tempdir().unwrap();
    let path = temp_store(&dir);

    {
        let mut db = Database::open(&path).unwrap();
        let id = db
            .insert(matrix().complete(String::from("/media/matrix.mkv")))
            .unwrap();
        assert_eq!(id, 1);
    }

    let mut db = Database::open(&path).unwrap();
    let movies: Vec<LoadedMovie> = db.list_all().unwrap();
    assert_eq!(movies.len(), 1);
    assert_eq!(movies[0].title, "The Matrix");

    let id = db
        .insert(matrix().complete(String::from("/media/matrix2.mkv")))
        .unwrap();
    assert_eq!(id, 2);
}

#[test]
fn unwritable_path_is_a_db_error() {
    let dir = tempfile::tempdir().unwrap();
    let result = Database::open(&dir.path().to_string_lossy());
    assert!(matches!(result, Err(Error::Db(_))));
}

#[test]
fn tvshows_round_trip_too() {
    let dir = tempfile::tempdir().unwrap();
    let mut db = Database::open(&temp_store(&dir)).unwrap();

    let show = TvShow::new(396, String::from("Firefly"));
    assert_eq!(show.tvmaze_id, 396);
    assert_eq!(show.title, "Firefly");
    let id = db.insert(show.complete()).unwrap();
    assert_eq!(id, 1);

    let loaded: LoadedTvShow = db.select_by_id(1).unwrap().expect("row must be there");
    assert_eq!(loaded.tvmaze_id, 396);
    assert_eq!(loaded.title, "Firefly");

    let absent: Option<LoadedTvShow> = db.select_by_id(2).unwrap();
    assert!(absent.is_none());

    let shows: Vec<LoadedTvShow> = db.list_all().unwrap();
    assert_eq!(shows.len(), 1);
}

#[test]
fn summary_line_reads_as_expected() {
    let dir = tempfile::tempdir().unwrap();
    let mut db = Database::open(&temp_store(&dir)).unwrap();
    let id = db
        .insert(matrix().complete(String::from("/media/matrix.mkv")))
        .unwrap();
    let loaded: LoadedMovie = db.select_by_id(id).unwrap().unwrap();
    assert_eq!(loaded.summary(), "[1/tmdb:603] The Matrix (1999)");
}

#[test]
fn completing_preserves_known_facts() {
    let mut movie = Movie::new(603, String::from("The Matrix"), 1999);
    movie.set_runtime(Some(136));
    let complete = movie.complete(String::from("/media/matrix.mkv"));
    assert_eq!(complete.tmdb_id, 603);
    assert_eq!(complete.title, "The Matrix");
    assert_eq!(complete.release_year, 1999);
    assert_eq!(complete.path(), "/media/matrix.mkv");
    assert_eq!(*complete.original_runtime(), 136);
    assert_eq!(*complete.cut(), None);
}
