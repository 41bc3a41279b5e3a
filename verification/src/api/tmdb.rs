use crate::api::{query_string, QueryBuilder};
use crate::db::movie::IncompleteMovie;
use crate::db::movie::Movie;
use crate::text::{all_digits, dec_digits, digits_val, format_usize, parse_usize};
use vstd::prelude::*;

verus! {

/// The requests the movie-catalog service answers; `url` renders each as the
/// full address to fetch.
pub enum TmdbEndpoint<'a> {
    GetMovieDetail { movie_id: usize },
    SearchMovies { query: &'a str, year: Option<usize> },
}

impl<'a> TmdbEndpoint<'a> {
    /// The address this endpoint stands for, given the credential.
    pub open spec fn spec_url(self, api_key: Seq<char>) -> Seq<char> {
        match self {
            TmdbEndpoint::GetMovieDetail { movie_id } => "https://api.themoviedb.org/3"@
                + "/movie/"@ + dec_digits(movie_id as nat) + query_string(
                seq!["api_key"@],
                seq![api_key],
            ),
            TmdbEndpoint::SearchMovies { query, year } => "https://api.themoviedb.org/3"@
                + "/search/movie"@ + match year {
                None => query_string(seq!["api_key"@, "query"@], seq![api_key, query@]),
                Some(y) => query_string(
                    seq!["api_key"@, "query"@, "primary_release_year"@],
                    seq![api_key, query@, dec_digits(y as nat)],
                ),
            },
        }
    }

    pub fn url(&'a self, api_key: &'a str) -> (r: String)
        ensures
            r@ == self.spec_url(api_key@),
    {
        match self {
            TmdbEndpoint::GetMovieDetail { movie_id } => {
                let mut path = String::from_str("/movie/");
                let digits = format_usize(*movie_id);
                path.append(digits.as_str());
                let query = QueryBuilder::new().add(
                    String::from_str("api_key"),
                    String::from_str(api_key),
                ).build();
                let r = build_url(path.as_str(), query.as_str());
                proof {
                    assert(Seq::<Seq<char>>::empty().push("api_key"@) =~= seq!["api_key"@]);
                    assert(Seq::<Seq<char>>::empty().push(api_key@) =~= seq![api_key@]);
                    assert(r@ =~= self.spec_url(api_key@));
                }
                r
            }
            TmdbEndpoint::SearchMovies { query, year } => {
                let builder = QueryBuilder::new().add(
                    String::from_str("api_key"),
                    String::from_str(api_key),
                ).add(String::from_str("query"), String::from_str(query));
                let qs = match year {
                    Some(y) => {
                        let b = builder.add(
                            String::from_str("primary_release_year"),
                            format_usize(*y),
                        );
                        proof {
                            assert(b.spec_keys() =~= seq![
                                "api_key"@,
                                "query"@,
                                "primary_release_year"@,
                            ]);
                            assert(b.spec_values() =~= seq![
                                api_key@,
                                query@,
                                dec_digits(*y as nat),
                            ]);
                        }
                        b.build()
                    }
                    None => {
                        proof {
                            assert(builder.spec_keys() =~= seq!["api_key"@, "query"@]);
                            assert(builder.spec_values() =~= seq![api_key@, query@]);
                        }
                        builder.build()
                    }
                };
                let r = build_url("/search/movie", qs.as_str());
                proof {
                    assert(r@ =~= self.spec_url(api_key@));
                }
                r
            }
        }
    }
}

fn build_url(path: &str, query: &str) -> (r: String)
    ensures
        r@ == "https://api.themoviedb.org/3"@ + path@ + query@,
{
    let mut url = String::from_str("https://api.themoviedb.org/3");
    url.append(path);
    url.append(query);
    url
}

/// The run of characters before the first `-`, the whole text when it holds
/// none: the year part of a `yyyy-mm-dd` date.
pub open spec fn dash_prefix(s: Seq<char>) -> Seq<char>
    decreases s.len(),
{
    if s.len() == 0 {
        Seq::empty()
    } else if s[0] == '-' {
        Seq::empty()
    } else {
        seq![s[0]] + dash_prefix(s.drop_first())
    }
}

proof fn lemma_dash_prefix(s: Seq<char>, i: int)
    requires
        0 <= i <= s.len(),
        forall|k: int| 0 <= k < i ==> s[k] != '-',
        i < s.len() ==> s[i] == '-',
    ensures
        dash_prefix(s) =~= s.take(i),
    decreases i,
{
    if i == 0 {
        if s.len() > 0 {
            assert(s[0] == '-');
        }
    } else {
        assert(s[0] != '-');
        lemma_dash_prefix(s.drop_first(), i - 1);
        assert(seq![s[0]] + s.drop_first().take(i - 1) =~= s.take(i));
    }
}

fn find_dash(s: &str) -> (i: usize)
    ensures
        i <= s@.len(),
        forall|k: int| 0 <= k < i ==> s@[k] != '-',
        i < s@.len() ==> s@[i as int] == '-',
{
    let n = s.unicode_len();
    let mut i: usize = 0;
    while i < n
        invariant
            i <= n,
            n == s@.len(),
            forall|k: int| 0 <= k < i ==> s@[k] != '-',
        decreases n - i,
    {
        if s.get_char(i) == '-' {
            return i;
        }
        i = i + 1;
    }
    i
}

/// Reads the year from a `yyyy-mm-dd` date: the value of the digits before
/// the first `-` when they are all digits, at least one, and fit; nothing
/// otherwise.
pub fn convert_year(date: &str) -> (r: Option<u32>)
    ensures
        r matches Some(y) ==> dash_prefix(date@).len() > 0 && all_digits(dash_prefix(date@))
            && y == digits_val(dash_prefix(date@)) && digits_val(dash_prefix(date@)) <= u32::MAX,
        r is None ==> dash_prefix(date@).len() == 0 || !all_digits(dash_prefix(date@))
            || digits_val(dash_prefix(date@)) > u32::MAX,
{
    let i = find_dash(date);
    proof {
        lemma_dash_prefix(date@, i as int);
    }
    let prefix = date.substring_char(0, i);
    proof {
        assert(prefix@ =~= dash_prefix(date@));
    }
    match parse_usize(prefix) {
        Some(v) => {
            if v <= u32::MAX as usize {
                Some(v as u32)
            } else {
                None
            }
        }
        None => {
            proof {
                if digits_val(dash_prefix(date@)) > usize::MAX {
                    assert(digits_val(dash_prefix(date@)) > u32::MAX);
                }
            }
            None
        }
    }
}

/// Builds the `Incomplete` movie that a catalog detail record describes:
/// catalog id and title as given, the release year read from the date, and
/// the runtime kept only when the catalog reported one (it reports zero for
/// none). Nothing when the date holds no readable year.
pub fn incomplete_movie_from_detail(
    tmdb_id: usize,
    title: String,
    release_date: &str,
    runtime: u32,
) -> (r: Option<IncompleteMovie>)
    ensures
        r matches Some(m) ==> m.spec_tmdb_id() == tmdb_id && m.spec_title() == title
            && m.spec_release_year() == digits_val(dash_prefix(release_date@)) && (runtime != 0
            ==> m.spec_runtime() == Some(runtime)) && (runtime == 0 ==> m.spec_runtime() is None)
            && m.spec_cut() is None && m.spec_path() is None && m.spec_id() is None,
        (r is Some) == (dash_prefix(release_date@).len() > 0 && all_digits(
            dash_prefix(release_date@),
        ) && digits_val(dash_prefix(release_date@)) <= u32::MAX),
{
    match convert_year(release_date) {
        Some(year) => {
            let mut movie = Movie::new(tmdb_id, title, year);
            if runtime != 0 {
                movie.set_runtime(Some(runtime));
            }
            Some(movie)
        }
        None => None,
    }
}

/// Builds the `Incomplete` movie that a catalog search hit describes; search
/// hits carry no runtime. Nothing when the date holds no readable year.
pub fn incomplete_movie_from_search(tmdb_id: usize, title: String, release_date: &str) -> (r:
    Option<IncompleteMovie>)
    ensures
        r matches Some(m) ==> m.spec_tmdb_id() == tmdb_id && m.spec_title() == title
            && m.spec_release_year() == digits_val(dash_prefix(release_date@))
            && m.spec_runtime() is None && m.spec_cut() is None && m.spec_path() is None
            && m.spec_id() is None,
        (r is Some) == (dash_prefix(release_date@).len() > 0 && all_digits(
            dash_prefix(release_date@),
        ) && digits_val(dash_prefix(release_date@)) <= u32::MAX),
{
    match convert_year(release_date) {
        Some(year) => Some(Movie::new(tmdb_id, title, year)),
        None => None,
    }
}

} // verus!
