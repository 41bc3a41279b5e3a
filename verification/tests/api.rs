use libmm::api::tmdb::{convert_year, incomplete_movie_from_detail, TmdbEndpoint};
use libmm::api::tvmaze::TvMazeEndpoint;
use libmm::api::QueryBuilder;

#[test]
fn it_creates_query() {
    let query = QueryBuilder::new()
        .add(String::from("test"), 1.to_string())
        .add(String::from("test2"), "aaaaa".to_string())
        .build();

    assert_eq!(String::from("?test=1&test2=aaaaa"), query);
}

#[test]
fn empty_query_is_empty() {
    assert_eq!(String::new(), QueryBuilder::new().build());
}

#[test]
fn tmdb_detail_url() {
    let url = TmdbEndpoint::GetMovieDetail { movie_id: 603 }.url("token");
    assert_eq!(url, "https://api.themoviedb.org/3/movie/603?api_key=token");
}

#[test]
fn tmdb_search_url_without_year() {
    let url = TmdbEndpoint::SearchMovies { query: "matrix", year: None }.url("token");
    assert_eq!(
        url,
        "https://api.themoviedb.org/3/search/movie?api_key=token&query=matrix"
    );
}

#[test]
fn tmdb_search_url_with_year() {
    let url = TmdbEndpoint::SearchMovies { query: "matrix", year: Some(1999) }.url("token");
    assert_eq!(
        url,
        "https://api.themoviedb.org/3/search/movie?api_key=token&query=matrix&primary_release_year=1999"
    );
}

#[test]
fn tvmaze_search_url() {
    let url = TvMazeEndpoint::SearchTvShow { query: "firefly" }.url();
    assert_eq!(url, "https://api.tvmaze.com/search/shows?q=firefly");
}

#[test]
fn year_is_read_from_dates() {
    assert_eq!(convert_year("1999-03-31"), Some(1999));
    assert_eq!(convert_year("2015"), Some(2015));
    assert_eq!(convert_year(""), None);
    assert_eq!(convert_year("soon-ish"), None);
    assert_eq!(convert_year("-2000"), None);
}

#[test]
fn detail_record_becomes_incomplete_movie() {
    let movie = incomplete_movie_from_detail(603, String::from("The Matrix"), "1999-03-31", 136)
        .expect("year should parse");
    assert_eq!(movie.tmdb_id, 603);
    assert_eq!(movie.title, "The Matrix");
    assert_eq!(movie.release_year, 1999);

    let complete = movie.complete(String::from("/media/matrix.mkv"));
    assert_eq!(*complete.original_runtime(), 136);

    assert!(incomplete_movie_from_detail(1, String::from("x"), "unknown", 120).is_none());
}
