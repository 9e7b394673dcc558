//! Checks on what the command line names.

use vstd::prelude::*;
use vstd::string::*;

verus! {

/// The complaint about a configuration file that is not there.
pub open spec fn missing_file_message(filename: Seq<char>) -> Seq<char> {
    "File '"@ + filename + " ' does not exist"@
}

/// What [`file_exists`] returns.
pub open spec fn file_exists_spec(filename: Seq<char>, exists: bool) -> Result<
    Seq<char>,
    Seq<char>,
> {
    if exists {
        Ok(filename)
    } else {
        Err(missing_file_message(filename))
    }
}

/// The text inside a result of [`file_exists`].
pub open spec fn checked_view(checked: Result<String, String>) -> Result<Seq<char>, Seq<char>> {
    match checked {
        Ok(name) => Ok(name@),
        Err(message) => Err(message@),
    }
}

/// Accepts the name of a configuration file if the file is there. `exists`
/// says whether it is; with a file that is missing the result is the
/// complaint to show.
pub fn file_exists(filename: &str, exists: bool) -> (checked: Result<String, String>)
    ensures
        checked_view(checked) == file_exists_spec(filename@, exists),
{
    if exists {
        Ok(String::from_str(filename))
    } else {
        let mut message = String::from_str("File '");
        message.append(filename);
        message.append(" ' does not exist");
        Err(message)
    }
}

} // verus!
