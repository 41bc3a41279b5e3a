use crate::cli::error::AppError;
use vstd::prelude::*;

verus! {

/// What the program needs from its configuration file: the catalog
/// credential.
#[derive(Debug)]
pub struct Config {
    pub tmdb_token: String,
}

impl Config {
    /// Decides what a configuration file yields, given what was found under
    /// the credential's key: nothing at all, something that is not text, or
    /// the text itself. Only the last gives a configuration; the others name
    /// what is wrong.
    pub fn from_token(token: Option<Option<String>>) -> (r: Result<Self, AppError>)
        ensures
            token matches Some(Some(s)) ==> (r matches Ok(c) && c.tmdb_token@ == s@),
            token matches Some(None) ==> (r matches Err(e) && (e matches AppError::Config(m) && m@
                == "Invalid data type of `tmdb_token`"@)),
            token is None ==> (r matches Err(e) && (e matches AppError::Config(m) && m@
                == "Missing value `tmdb_token`"@)),
    {
        match token {
            Some(Some(s)) => Ok(Self { tmdb_token: s }),
            Some(None) => Err(
                AppError::Config(String::from_str("Invalid data type of `tmdb_token`")),
            ),
            None => Err(AppError::Config(String::from_str("Missing value `tmdb_token`"))),
        }
    }
}

} // verus!
