//! Submission of jobs.

use vstd::prelude::*;
use crate::models::{job_views, Job};
use crate::state::{has_job, job_ids_unique, lemma_push_job_keeps_ids_unique};

verus! {

/// Appends a submitted job to the collection, as it is. The jobs already
/// there stay as they are, and their ids stay unique if the new id is none of
/// theirs.
pub fn add_job(jobs: &mut Vec<Job>, job: Job)
    ensures
        final(jobs)@ == old(jobs)@.push(job),
        job_views(final(jobs)@) == job_views(old(jobs)@).push(job@),
        job_ids_unique(job_views(old(jobs)@)) && !has_job(job_views(old(jobs)@), job@.job_id)
            ==> job_ids_unique(job_views(final(jobs)@)),
{
    proof {
        assert(job_views(jobs@.push(job)) =~= job_views(jobs@).push(job@));
        if job_ids_unique(job_views(jobs@)) && !has_job(job_views(jobs@), job@.job_id) {
            lemma_push_job_keeps_ids_unique(job_views(jobs@), job@);
        }
    }
    jobs.push(job);
}

} // verus!
