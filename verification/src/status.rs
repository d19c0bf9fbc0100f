use vstd::prelude::*;
use vstd::string::StringExecFns;

verus! {

/// Status line shown to the producer when a job is submitted:
/// `Pulling '<source>'`.
pub open spec fn pulling_message(source: Seq<char>) -> Seq<char> {
    "Pulling '"@ + source + "'"@
}

/// Status line reported on the feedback channel when a launch fails:
/// `Launch failed for '<source>'`.
pub open spec fn failure_message(source: Seq<char>) -> Seq<char> {
    "Launch failed for '"@ + source + "'"@
}

/// Build the submission status line for a source locator.
pub fn pulling_status(source: &String) -> (s: String)
    ensures
        s@ == pulling_message(source@),
{
    "Pulling '".to_owned().concat(source.as_str()).concat("'")
}

/// Build the launch-failure status line for a source locator.
pub fn failure_status(source: &String) -> (s: String)
    ensures
        s@ == failure_message(source@),
{
    "Launch failed for '".to_owned().concat(source.as_str()).concat("'")
}

} // verus!
