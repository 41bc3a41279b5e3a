use crate::cli::error::AppError;
use vstd::prelude::*;

verus! {

/// Reads a yes-or-no answer: `y` confirms, `n` declines, anything else is
/// an invalid-input error. The caller hands the answer already stripped of
/// surrounding blanks.
pub fn parse_confirmation(answer: &str) -> (r: Result<bool, AppError>)
    ensures
        answer@ == "y"@ ==> r == Ok::<bool, AppError>(true),
        answer@ == "n"@ ==> r == Ok::<bool, AppError>(false),
        answer@ != "y"@ && answer@ != "n"@ ==> (r matches Err(e) && (e matches AppError::Input(m)
            && m@ == "Invalid input, write y/n"@)),
{
    proof {
        reveal_strlit("y");
        reveal_strlit("n");
        assert("y"@[0] == 'y' && "n"@[0] == 'n');
        assert("y"@ != "n"@);
    }
    if crate::text::str_eq(answer, "y") {
        Ok(true)
    } else if crate::text::str_eq(answer, "n") {
        Ok(false)
    } else {
        Err(AppError::invalid_input("Invalid input, write y/n"))
    }
}

} // verus!
