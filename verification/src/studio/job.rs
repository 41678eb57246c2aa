//! A queue entry's job: a render [`JobSpec`] plus an id.
use vstd::prelude::*;
use crate::job_spec::JobSpec;
use crate::text::str_string;

verus! {

/// One queued item for the Director UI.
#[derive(Debug, Clone, PartialEq)]
pub struct StudioJob {
    pub id: String,
    pub spec: JobSpec,
}

/// Name of the temporary job file written for a run: `idle-studio-<id>.json`.
pub open spec fn job_file_name_spec(id: Seq<char>) -> Seq<char> {
    "idle-studio-"@ + id + ".json"@
}

impl StudioJob {
    /// A job with the given id.
    pub fn new(id: String, spec: JobSpec) -> (r: Self)
        ensures
            r.id == id,
            r.spec == spec,
    {
        StudioJob { id, spec }
    }

    /// An identical copy of the job.
    pub fn duplicate(&self) -> (r: Self)
        ensures
            r == *self,
    {
        StudioJob { id: self.id.clone(), spec: self.spec.duplicate() }
    }

    /// File name (inside the temporary directory) of this job's job file.
    pub fn job_file_name(&self) -> (r: String)
        ensures
            r@ == job_file_name_spec(self.id@),
    {
        let mut r = str_string("idle-studio-");
        r.append(self.id.as_str());
        r.append(".json");
        r
    }
}

} // verus!
