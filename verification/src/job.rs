use vstd::prelude::*;

verus! {

/// The mathematical value of a [`Job`]: the two fields as character sequences.
pub ghost struct JobView {
    pub source: Seq<char>,
    pub output_name: Seq<char>,
}

/// One capture request: a stream locator and the name for the output file.
///
/// A job is a structured value with named fields, never an encoding of the
/// two fields into one delimited string, so no separator character in either
/// field can corrupt it. The source locator is non-empty; the output name may
/// be empty (a default is applied downstream by the capture tool).
pub struct Job {
    pub source: String,
    pub output_name: String,
}

impl View for Job {
    type V = JobView;

    open spec fn view(&self) -> JobView {
        JobView { source: self.source@, output_name: self.output_name@ }
    }
}

impl Job {
    /// A job is well formed when its source locator is non-empty.
    pub open spec fn wf(self) -> bool {
        self.source@.len() > 0
    }

    /// Build a job from its two fields.
    pub fn new(source: String, output_name: String) -> (j: Job)
        requires
            source@.len() > 0,
        ensures
            j@.source == source@,
            j@.output_name == output_name@,
            j.wf(),
    {
        Job { source, output_name }
    }
}

} // verus!
