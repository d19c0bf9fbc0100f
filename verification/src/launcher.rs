use vstd::prelude::*;
use vstd::string::StringExecFns;
use crate::job::{Job, JobView};

verus! {

/// The views of an argument vector's entries.
pub open spec fn views_of(args: Seq<String>) -> Seq<Seq<char>> {
    args.map_values(|s: String| s@)
}

/// The output file handed to the capture tool: the job's output name with the
/// fixed container suffix appended.
pub open spec fn output_file(j: JobView) -> Seq<char> {
    j.output_name + ".ts"@
}

/// The exact invocation of the capture tool for one job, in order: record
/// (`-r`) into the output file, from the source locator, at the best
/// available rendition. Argument order and flag spelling are the
/// compatibility surface with the external tool and are fixed.
pub open spec fn launch_args(j: JobView) -> Seq<Seq<char>> {
    seq!["-r"@, output_file(j), j.source, "best"@]
}

/// Translate a job into the capture tool's argument vector: a pure function
/// of the job. Both fields are taken verbatim — no escaping, no splitting,
/// no validation.
pub fn build_args(job: &Job) -> (args: Vec<String>)
    ensures
        views_of(args@) == launch_args(job@),
{
    let mut args: Vec<String> = Vec::new();
    args.push("-r".to_owned());
    args.push(job.output_name.clone().concat(".ts"));
    args.push(job.source.clone());
    args.push("best".to_owned());
    proof {
        assert(views_of(args@) =~= launch_args(job@));
    }
    args
}

} // verus!
