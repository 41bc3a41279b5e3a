use crate::cli::error::AppError;
use crate::text::{all_digits, digits_val, parse_usize, str_eq};
use vstd::prelude::*;

verus! {

/// Lists the stored movies, optionally with the metadata read from each
/// file.
#[derive(Debug, PartialEq, Eq, Structural)]
pub struct ListMoviesCommand {
    pub with_metadata: bool,
}

/// Adds the movie file at the given path to the store.
#[derive(Debug)]
pub struct AddMovieCommand {
    pub path: String,
}

impl PartialEq for AddMovieCommand {
    fn eq(&self, other: &Self) -> (r: bool) {
        self.path == other.path
    }
}

impl vstd::std_specs::cmp::PartialEqSpecImpl for AddMovieCommand {
    open spec fn obeys_eq_spec() -> bool {
        true
    }

    open spec fn eq_spec(&self, other: &Self) -> bool {
        self.path@ == other.path@
    }
}

impl Eq for AddMovieCommand {

}

/// One action the program can be asked to carry out.
#[derive(Debug)]
pub enum Command {
    ListMovies(ListMoviesCommand),
    AddMovie(AddMovieCommand),
    PrintHelp,
    Exit,
}

/// Whether two commands ask for the same action with the same inputs.
pub open spec fn spec_command_eq(a: Command, b: Command) -> bool {
    match (a, b) {
        (Command::ListMovies(a), Command::ListMovies(b)) => a.with_metadata == b.with_metadata,
        (Command::AddMovie(a), Command::AddMovie(b)) => a.path@ == b.path@,
        (Command::PrintHelp, Command::PrintHelp) => true,
        (Command::Exit, Command::Exit) => true,
        _ => false,
    }
}

impl PartialEq for Command {
    fn eq(&self, other: &Self) -> (r: bool) {
        let r = match (self, other) {
            (Command::ListMovies(a), Command::ListMovies(b)) => a.with_metadata
                == b.with_metadata,
            (Command::AddMovie(a), Command::AddMovie(b)) => str_eq(
                a.path.as_str(),
                b.path.as_str(),
            ),
            (Command::PrintHelp, Command::PrintHelp) => true,
            (Command::Exit, Command::Exit) => true,
            _ => false,
        };
        proof {
            assert(r == spec_command_eq(*self, *other));
        }
        r
    }
}

impl vstd::std_specs::cmp::PartialEqSpecImpl for Command {
    open spec fn obeys_eq_spec() -> bool {
        true
    }

    open spec fn eq_spec(&self, other: &Self) -> bool {
        spec_command_eq(*self, *other)
    }
}

impl Eq for Command {

}

/// What parsing a word list into a command yields, word by word: the first
/// word picks the command, the second feeds it; anything else is a parse
/// error naming what went wrong.
pub open spec fn parsed_command_ok(a: Seq<Seq<char>>, r: Result<Command, AppError>) -> bool {
    if a.len() == 0 {
        r matches Err(e) && (e matches AppError::ArgsParse(m) && m@ == "Empty argument list"@)
    } else if a[0] == "list-movies"@ {
        r == Ok::<Command, AppError>(
            Command::ListMovies(
                (ListMoviesCommand { with_metadata: a.len() > 1 && a[1] == "--with-metadata"@ }),
            ),
        )
    } else if a[0] == "add-movie"@ {
        if a.len() > 1 {
            r matches Ok(c) && (c matches Command::AddMovie(am) && am.path@ == a[1])
        } else {
            r matches Err(e) && (e matches AppError::ArgsParse(m) && m@
                == "No path to movie provided"@)
        }
    } else if a[0] == "help"@ {
        r == Ok::<Command, AppError>(Command::PrintHelp)
    } else if a[0] == "exit"@ {
        r == Ok::<Command, AppError>(Command::Exit)
    } else {
        r matches Err(e) && (e matches AppError::ArgsParse(m) && m@ == "Unknown command"@)
    }
}

/// Turns a word list into a command.
pub struct CommandParser;

impl CommandParser {
    pub fn try_from_arr(args: &Vec<String>) -> (r: Result<Command, AppError>)
        ensures
            parsed_command_ok(args.deep_view(), r),
    {
        if args.len() == 0 {
            return Err(AppError::ArgsParse(String::from_str("Empty argument list")));
        }
        let first = &args[0];

        if str_eq(first.as_str(), "list-movies") {
            let with_metadata = if args.len() > 1 {
                str_eq(args[1].as_str(), "--with-metadata")
            } else {
                false
            };
            Ok(Command::ListMovies(ListMoviesCommand { with_metadata }))
        } else if str_eq(first.as_str(), "add-movie") {
            if args.len() > 1 {
                Ok(Command::AddMovie(AddMovieCommand { path: args[1].clone() }))
            } else {
                Err(AppError::ArgsParse(String::from_str("No path to movie provided")))
            }
        } else if str_eq(first.as_str(), "help") {
            Ok(Command::PrintHelp)
        } else if str_eq(first.as_str(), "exit") {
            Ok(Command::Exit)
        } else {
            Err(AppError::ArgsParse(String::from_str("Unknown command")))
        }
    }
}

/// The answer an index prompt can get: no movie wanted, the position of a
/// listed movie, or a number outside the listing.
#[derive(Debug, PartialEq, Eq, Structural)]
pub enum MovieIndex {
    NotChosen,
    Valid(usize),
    Invalid,
}

/// Reads the answer to "select a movie by its index, or 0 for none", with
/// `max` choices shown: a number that is not readable as one is an
/// invalid-input error; zero declines; a number up to `max` picks the
/// movie at that position (counted from one); anything larger is out of
/// range.
pub fn select_index(line: &str, max: usize) -> (r: Result<MovieIndex, AppError>)
    ensures
        (line@.len() == 0 || !all_digits(line@) || digits_val(line@) > usize::MAX) ==> (r matches
            Err(e) && (e matches AppError::Input(m) && m@ == "Input is not a number"@)),
        line@.len() > 0 && all_digits(line@) && digits_val(line@) == 0 ==> r == Ok::<
            MovieIndex,
            AppError,
        >(MovieIndex::NotChosen),
        line@.len() > 0 && all_digits(line@) && 0 < digits_val(line@) && digits_val(line@) <= max
            ==> r == Ok::<MovieIndex, AppError>(MovieIndex::Valid((digits_val(line@) - 1) as usize)),
        line@.len() > 0 && all_digits(line@) && max < digits_val(line@) && digits_val(line@)
            <= usize::MAX ==> r == Ok::<MovieIndex, AppError>(MovieIndex::Invalid),
{
    match parse_usize(line) {
        Some(index) => {
            if index == 0 {
                Ok(MovieIndex::NotChosen)
            } else if index <= max {
                Ok(MovieIndex::Valid(index - 1))
            } else {
                Ok(MovieIndex::Invalid)
            }
        }
        None => Err(AppError::invalid_input("Input is not a number")),
    }
}

} // verus!
