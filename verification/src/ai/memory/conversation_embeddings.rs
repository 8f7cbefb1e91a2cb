//! Jobs and their progress.

use vstd::prelude::*;
use vstd::string::StringExecFns;
use crate::event::event::CorrelationId;
use crate::kernel::correlation::{id_text, id_text_of, random_id};

verus! {

/// How far a job has come.
#[derive(Debug, Clone, Copy, PartialEq, Eq, Structural)]
pub enum JobStatus {
    Pending,
    Running,
    Completed,
    Failed,
}

impl JobStatus {
    /// A job is incomplete while it is pending or running.
    pub open spec fn incomplete(self) -> bool {
        self == JobStatus::Pending || self == JobStatus::Running
    }

    /// Whether a job in this state is taken up again after a restart.
    pub fn is_incomplete(&self) -> (b: bool)
        ensures
            b == self.incomplete(),
    {
        match self {
            JobStatus::Pending => true,
            JobStatus::Running => true,
            _ => false,
        }
    }
}

/// A job on record.
#[derive(Debug, Clone, PartialEq, Eq)]
pub struct JobRecord {
    pub id: CorrelationId,
    pub job_type: String,
    pub status: JobStatus,
    pub last_step: Option<String>,
    pub payload: Option<String>,
}

/// Keeps the records of jobs.
#[derive(Debug, Clone, Copy, PartialEq, Eq, Structural)]
pub struct JobStore;

/// Where the record of a job is kept.
pub open spec fn job_path(id: CorrelationId) -> Seq<char> {
    "axon_state/jobs/"@ + id_text_of(id) + ".json"@
}

impl JobStore {
    /// Where the record of a job is kept.
    pub fn path(id: CorrelationId) -> (path: String)
        ensures
            path@ == job_path(id),
    {
        let mut path = String::from_str("axon_state/jobs/");
        path.append(id_text(id).as_str());
        path.append(".json");
        path
    }

    /// A new, pending job under the given identifier.
    pub fn create_with(id: CorrelationId, job_type: &str, payload: Option<String>) -> (record:
        JobRecord)
        ensures
            record.id == id,
            record.job_type@ == job_type@,
            record.status == JobStatus::Pending,
            record.last_step is None,
            record.payload == payload,
    {
        JobRecord {
            id,
            job_type: String::from_str(job_type),
            status: JobStatus::Pending,
            last_step: None,
            payload,
        }
    }

    /// A new, pending job under an identifier drawn at random.
    pub fn create(job_type: &str, payload: Option<String>) -> (record: JobRecord)
        ensures
            record.job_type@ == job_type@,
            record.status == JobStatus::Pending,
            record.last_step is None,
            record.payload == payload,
    {
        JobStore::create_with(random_id(), job_type, payload)
    }

    /// Moves a job to another state.
    pub fn update_status(job: &mut JobRecord, status: JobStatus)
        ensures
            *final(job) == (JobRecord { status, ..*old(job) }),
    {
        job.status = status;
    }

    /// Notes the step a job has reached.
    pub fn update_step(job: &mut JobRecord, step: &str)
        ensures
            final(job).last_step matches Some(text) && text@ == step@,
            final(job).id == old(job).id,
            final(job).job_type == old(job).job_type,
            final(job).status == old(job).status,
            final(job).payload == old(job).payload,
    {
        job.last_step = Some(String::from_str(step));
    }

    /// The jobs to take up again: those that are pending or running, in
    /// the order given.
    pub fn load_incomplete(jobs: Vec<JobRecord>) -> (open: Vec<JobRecord>)
        ensures
            open@ == jobs@.filter(|job: JobRecord| job.status.incomplete()),
    {
        let mut open: Vec<JobRecord> = Vec::new();
        let ghost all = jobs@;
        let mut rest = jobs;
        let ghost mut taken: int = 0;
        proof {
            assert(all.subrange(0, 0) =~= Seq::<JobRecord>::empty());
        }
        while rest.len() > 0
            invariant
                0 <= taken <= all.len(),
                rest@ == all.subrange(taken, all.len() as int),
                open@ == all.subrange(0, taken).filter(|job: JobRecord| job.status.incomplete()),
            decreases rest.len(),
        {
            let job = rest.remove(0);
            proof {
                let pred = |job: JobRecord| job.status.incomplete();
                let head = all.subrange(0, taken);
                assert(job == all[taken]);
                let next = all.subrange(0, taken + 1);
                assert(next.drop_last() =~= head);
                assert(next.last() == job);
                reveal(Seq::filter);
                assert(next.filter(pred) == if pred(job) {
                    head.filter(pred).push(job)
                } else {
                    head.filter(pred)
                });
                taken = taken + 1;
                assert(rest@ =~= all.subrange(taken, all.len() as int));
            }
            if job.status.is_incomplete() {
                open.push(job);
            }
        }
        assert(all.subrange(0, all.len() as int) =~= all);
        open
    }
}

} // verus!
