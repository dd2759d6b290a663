//! What to say of an attempt to read a file: the failure is handed on as it
//! came, and only the last caller tells success from failure.

use vstd::prelude::*;

verus! {

/// The line that reports the outcome: the content after a success, the reason
/// after a failure.
pub open spec fn report_text(outcome: Result<Seq<char>, Seq<char>>) -> Seq<char> {
    match outcome {
        Ok(text) => "File content: "@ + text,
        Err(reason) => "Failed to read the file: "@ + reason,
    }
}

/// The outcome as the contracts see it: the characters of either side.
pub open spec fn outcome_view(outcome: Result<String, String>) -> Result<Seq<char>, Seq<char>> {
    match outcome {
        Ok(text) => Ok(text@),
        Err(reason) => Err(reason@),
    }
}

/// Reports the outcome of reading a file, given the content that was read or
/// the reason why it could not be.
pub fn report(outcome: &Result<String, String>) -> (line: String)
    ensures
        line@ == report_text(outcome_view(*outcome)),
{
    match outcome {
        Ok(text) => {
            let mut line = String::from_str("File content: ");
            line.append(text.as_str());
            line
        },
        Err(reason) => {
            let mut line = String::from_str("Failed to read the file: ");
            line.append(reason.as_str());
            line
        },
    }
}

} // verus!
