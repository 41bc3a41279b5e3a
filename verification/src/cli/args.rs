use crate::cli::command::{parsed_command_ok, spec_command_eq, Command, CommandParser};
use crate::cli::error::AppError;
use crate::text::str_eq;
use vstd::prelude::*;

verus! {

/// How the program was asked to run: one command and done, or an
/// interactive session.
#[derive(Debug)]
pub enum RunMode {
    SingleCommand(Command),
    Interactive,
}

impl PartialEq for RunMode {
    fn eq(&self, other: &Self) -> (r: bool) {
        match (self, other) {
            (RunMode::SingleCommand(a), RunMode::SingleCommand(b)) => a == b,
            (RunMode::Interactive, RunMode::Interactive) => true,
            _ => false,
        }
    }
}

impl vstd::std_specs::cmp::PartialEqSpecImpl for RunMode {
    open spec fn obeys_eq_spec() -> bool {
        true
    }

    open spec fn eq_spec(&self, other: &Self) -> bool {
        match (self, other) {
            (RunMode::SingleCommand(a), RunMode::SingleCommand(b)) => spec_command_eq(*a, *b),
            (RunMode::Interactive, RunMode::Interactive) => true,
            _ => false,
        }
    }
}

impl Eq for RunMode {

}

/// What reading the argument list yields: no arguments or a help flag ask
/// for the help text, the interactive flag for a session, and anything
/// else is read as a single command.
pub open spec fn run_mode_ok(a: Seq<Seq<char>>, r: Result<RunMode, AppError>) -> bool {
    if a.len() == 0 {
        r == Ok::<RunMode, AppError>(RunMode::SingleCommand(Command::PrintHelp))
    } else if a[0] == "-h"@ || a[0] == "--help"@ {
        r == Ok::<RunMode, AppError>(RunMode::SingleCommand(Command::PrintHelp))
    } else if a[0] == "-i"@ || a[0] == "--interactive"@ {
        r == Ok::<RunMode, AppError>(RunMode::Interactive)
    } else {
        match r {
            Ok(m) => m matches RunMode::SingleCommand(c) && parsed_command_ok(
                a,
                Ok::<Command, AppError>(c),
            ),
            Err(e) => parsed_command_ok(a, Err::<Command, AppError>(e)),
        }
    }
}

impl RunMode {
    pub fn try_from_arr(args: &Vec<String>) -> (r: Result<Self, AppError>)
        ensures
            run_mode_ok(args.deep_view(), r),
    {
        if args.len() == 0 {
            return Ok(RunMode::SingleCommand(Command::PrintHelp));
        }
        let first = &args[0];
        if str_eq(first.as_str(), "-h") || str_eq(first.as_str(), "--help") {
            Ok(RunMode::SingleCommand(Command::PrintHelp))
        } else if str_eq(first.as_str(), "-i") || str_eq(first.as_str(), "--interactive") {
            Ok(RunMode::Interactive)
        } else {
            match CommandParser::try_from_arr(args) {
                Ok(command) => Ok(RunMode::SingleCommand(command)),
                Err(e) => Err(e),
            }
        }
    }
}

} // verus!
