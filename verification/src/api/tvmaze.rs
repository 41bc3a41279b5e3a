use crate::api::{query_string, QueryBuilder};
use vstd::prelude::*;

verus! {

/// The requests the television-catalog service answers; `url` renders each
/// as the full address to fetch. The service asks no credential.
pub enum TvMazeEndpoint<'a> {
    SearchTvShow { query: &'a str },
}

impl<'a> TvMazeEndpoint<'a> {
    /// The address this endpoint stands for.
    pub open spec fn spec_url(self) -> Seq<char> {
        match self {
            TvMazeEndpoint::SearchTvShow { query } => "https://api.tvmaze.com"@ + "/search/shows"@
                + query_string(seq!["q"@], seq![query@]),
        }
    }

    pub fn url(&'a self) -> (r: String)
        ensures
            r@ == self.spec_url(),
    {
        match self {
            TvMazeEndpoint::SearchTvShow { query } => {
                let qs = QueryBuilder::new().add(
                    String::from_str("q"),
                    String::from_str(query),
                ).build();
                let r = build_url("/search/shows", qs.as_str());
                proof {
                    assert(Seq::<Seq<char>>::empty().push("q"@) =~= seq!["q"@]);
                    assert(Seq::<Seq<char>>::empty().push(query@) =~= seq![query@]);
                    assert(r@ =~= self.spec_url());
                }
                r
            }
        }
    }
}

fn build_url(path: &str, query: &str) -> (r: String)
    ensures
        r@ == "https://api.tvmaze.com"@ + path@ + query@,
{
    let mut url = String::from_str("https://api.tvmaze.com");
    url.append(path);
    url.append(query);
    url
}

} // verus!
