use crate::error::Error;
use vstd::prelude::*;

verus! {

/// The command-line layer's error: bad interactive input, a failure raised
/// by the library underneath, a configuration problem, or arguments that
/// could not be parsed. Each carries a diagnostic message or its cause.
#[derive(Debug)]
pub enum AppError {
    Input(String),
    Library(Error),
    Config(String),
    ArgsParse(String),
}

impl AppError {
    /// Convenience constructor for invalid-input errors.
    pub fn invalid_input(msg: &str) -> (r: Self)
        ensures
            r matches AppError::Input(m) && m@ == msg@,
    {
        AppError::Input(String::from_str(msg))
    }
}

impl PartialEq for AppError {
    /// Errors compare by kind; the message and the cause are diagnostic
    /// only.
    fn eq(&self, other: &Self) -> (r: bool) {
        match (self, other) {
            (AppError::Input(_), AppError::Input(_)) => true,
            (AppError::Library(_), AppError::Library(_)) => true,
            (AppError::Config(_), AppError::Config(_)) => true,
            (AppError::ArgsParse(_), AppError::ArgsParse(_)) => true,
            _ => false,
        }
    }
}

impl vstd::std_specs::cmp::PartialEqSpecImpl for AppError {
    open spec fn obeys_eq_spec() -> bool {
        true
    }

    open spec fn eq_spec(&self, other: &Self) -> bool {
        match (self, other) {
            (AppError::Input(_), AppError::Input(_)) => true,
            (AppError::Library(_), AppError::Library(_)) => true,
            (AppError::Config(_), AppError::Config(_)) => true,
            (AppError::ArgsParse(_), AppError::ArgsParse(_)) => true,
            _ => false,
        }
    }
}

impl Eq for AppError {

}

impl From<Error> for AppError {
    fn from(e: Error) -> (r: Self) {
        Self::Library(e)
    }
}

impl vstd::std_specs::convert::FromSpecImpl<Error> for AppError {
    open spec fn obeys_from_spec() -> bool {
        true
    }

    open spec fn from_spec(e: Error) -> Self {
        Self::Library(e)
    }
}

} // verus!
