//! The CI host: workflow job lists, the rule that picks the job awaiting
//! approval, and the endpoints that fetch jobs and submit an approval.
use vstd::prelude::*;

use crate::config::Config;
use crate::services::{shift_index, GatewayError};
use crate::text::str_eq;

verus! {

/// Base of the workflow endpoints of the CI host.
pub open spec fn workflow_base_path() -> Seq<char> {
    "https://circleci.com/api/v2/workflow"@
}

/// A client of the CI host, bound to one configuration.
pub struct Client<'a> {
    pub config: &'a Config,
}

impl<'a> Client<'a> {
    pub fn new(config: &'a Config) -> (r: Self)
        ensures
            r.config == config,
    {
        Client { config }
    }

    /// The endpoint that lists the jobs of a workflow.
    pub fn get_workflow_jobs_url(&self, workflow_id: &str) -> (r: String)
        ensures
            r@ == workflow_base_path() + "/"@ + workflow_id@ + "/job"@,
    {
        let r = String::from_str("https://circleci.com/api/v2/workflow");
        let r = r.concat("/");
        let r = r.concat(workflow_id);
        r.concat("/job")
    }

    /// The endpoint that approves one approval request of a workflow.
    pub fn get_approve_job_url(&self, workflow_id: &str, approval_request_id: &str) -> (r: String)
        ensures
            r@ == workflow_base_path() + "/"@ + workflow_id@ + "/approve/"@
                + approval_request_id@,
    {
        let r = String::from_str("https://circleci.com/api/v2/workflow");
        let r = r.concat("/");
        let r = r.concat(workflow_id);
        let r = r.concat("/approve/");
        r.concat(approval_request_id)
    }

    /// Turns a job-list response into a job set: a non-success HTTP status,
    /// or a failed transport (`status_ok` false), fails the fetch; a success
    /// whose body did not decode (`body` empty) is a malformed response.
    pub fn parse_workflow_job_response(&self, status_ok: bool, body: Option<WorkflowJobs>) -> (r:
        Result<WorkflowJobs, GatewayError>)
        ensures
            !status_ok ==> r == Err::<WorkflowJobs, GatewayError>(GatewayError::JobFetchFailed),
            status_ok && body.is_none() ==> r == Err::<WorkflowJobs, GatewayError>(
                GatewayError::MalformedResponse,
            ),
            status_ok && body.is_some() ==> r == Ok::<WorkflowJobs, GatewayError>(body.unwrap()),
    {
        if !status_ok {
            Err(GatewayError::JobFetchFailed)
        } else {
            match body {
                Some(b) => Ok(b),
                None => Err(GatewayError::MalformedResponse),
            }
        }
    }

    /// The outcome of an approval request: success exactly when a response
    /// came back (`status_success` is some) with a success status. No body is read.
    pub fn approval_response(&self, status_success: Option<bool>) -> (r: Result<(), GatewayError>)
        ensures
            r == if status_success == Some(true) {
                Ok::<(), GatewayError>(())
            } else {
                Err::<(), GatewayError>(GatewayError::ApprovalFailed)
            },
    {
        match status_success {
            Some(true) => Ok(()),
            _ => Err(GatewayError::ApprovalFailed),
        }
    }
}

/// The jobs of one workflow, in the order the host returned them.
#[derive(Debug)]
pub struct WorkflowJobs {
    pub items: Vec<WorkflowJob>,
}

/// One job of a workflow.
#[derive(Debug)]
pub struct WorkflowJob {
    pub name: String,
    pub project_slug: String,
    pub job_type: String,
    pub approval_request_id: Option<String>,
    pub status: String,
    pub id: String,
}

/// The job is an approval job.
pub open spec fn is_approval_spec(j: WorkflowJob) -> bool {
    j.job_type@ == "approval"@
}

/// The job is on hold.
pub open spec fn is_on_hold_spec(j: WorkflowJob) -> bool {
    j.status@ == "on_hold"@
}

/// The job is an approval job on hold: a candidate for approval.
pub open spec fn is_pending_approval_spec(j: WorkflowJob) -> bool {
    is_on_hold_spec(j) && is_approval_spec(j)
}

/// The index of the first candidate job in `jobs`, if any.
pub open spec fn first_candidate_index(jobs: Seq<WorkflowJob>) -> Option<int>
    decreases jobs.len(),
{
    if jobs.len() == 0 {
        None
    } else if is_pending_approval_spec(jobs[0]) {
        Some(0)
    } else {
        match first_candidate_index(jobs.drop_first()) {
            Some(i) => Some(i + 1),
            None => None,
        }
    }
}

/// The job chosen for approval is an approval job on hold, every job before
/// it is not, and without one no job is. A job that carries an approval
/// request but is not on hold is never chosen.
pub proof fn lemma_first_candidate(jobs: Seq<WorkflowJob>)
    ensures
        match first_candidate_index(jobs) {
            Some(i) => {
                &&& 0 <= i < jobs.len()
                &&& jobs[i].job_type@ == "approval"@
                &&& jobs[i].status@ == "on_hold"@
                &&& forall|j: int| 0 <= j < i ==> !is_pending_approval_spec(#[trigger] jobs[j])
            },
            None => forall|j: int|
                0 <= j < jobs.len() ==> !is_pending_approval_spec(#[trigger] jobs[j]),
        },
    decreases jobs.len(),
{
    if jobs.len() > 0 && !is_pending_approval_spec(jobs[0]) {
        let rest = jobs.drop_first();
        lemma_first_candidate(rest);
        assert forall|j: int| 1 <= j < jobs.len() implies jobs[j] == rest[j - 1] by {}
    }
}

/// The candidate jobs of `jobs` (approval jobs on hold), in their order.
pub open spec fn candidates(jobs: Seq<WorkflowJob>) -> Seq<WorkflowJob>
    decreases jobs.len(),
{
    if jobs.len() == 0 {
        Seq::empty()
    } else if is_pending_approval_spec(jobs[0]) {
        seq![jobs[0]] + candidates(jobs.drop_first())
    } else {
        candidates(jobs.drop_first())
    }
}

/// The chosen job is the first of the candidates; there is none exactly
/// when there are no candidates.
proof fn lemma_choice_is_first_candidate(jobs: Seq<WorkflowJob>)
    ensures
        match first_candidate_index(jobs) {
            Some(i) => 0 <= i < jobs.len() && candidates(jobs).len() > 0 && jobs[i]
                == candidates(jobs)[0],
            None => candidates(jobs).len() == 0,
        },
    decreases jobs.len(),
{
    if jobs.len() > 0 {
        lemma_choice_is_first_candidate(jobs.drop_first());
    }
}

/// The job chosen for approval depends only on the candidate jobs and their
/// order: inserting, removing or moving jobs that are not approval jobs on
/// hold does not change the choice.
pub proof fn lemma_choice_ignores_other_jobs(a: Seq<WorkflowJob>, b: Seq<WorkflowJob>)
    requires
        candidates(a) == candidates(b),
    ensures
        match (first_candidate_index(a), first_candidate_index(b)) {
            (Some(i), Some(k)) => a[i] == b[k],
            (None, None) => true,
            _ => false,
        },
{
    lemma_choice_is_first_candidate(a);
    lemma_choice_is_first_candidate(b);
}

impl WorkflowJobs {
    /// The first job, in the order given, that is an approval job on hold.
    pub fn get_pending_approval_job(&self) -> (r: Option<&WorkflowJob>)
        ensures
            match r {
                Some(j) => exists|i: int|
                    0 <= i < self.items@.len() && first_candidate_index(self.items@) == Some(i)
                        && *j == self.items@[i],
                None => first_candidate_index(self.items@).is_none(),
            },
    {
        let mut i: usize = 0;
        assert(self.items@.subrange(0, self.items@.len() as int) =~= self.items@);
        while i < self.items.len()
            invariant
                i <= self.items@.len(),
                first_candidate_index(self.items@) == shift_index(first_candidate_index(
                    self.items@.subrange(i as int, self.items@.len() as int),
                ), i as int),
            decreases self.items@.len() - i,
        {
            let j = &self.items[i];
            if j.is_pending_approval() {
                assert(self.items@.subrange(i as int, self.items@.len() as int)[0] == self.items@[i as int]);
                return Some(j);
            }
            proof {
                let rest = self.items@.subrange(i as int, self.items@.len() as int);
                assert(rest.drop_first() =~= self.items@.subrange(i + 1, self.items@.len() as int));
            }
            i = i + 1;
        }
        None
    }
}

impl WorkflowJob {
    /// The job is an approval job.
    pub fn is_approval(&self) -> (r: bool)
        ensures
            r == is_approval_spec(*self),
    {
        str_eq(self.job_type.as_str(), "approval")
    }

    /// The job is on hold.
    pub fn is_on_hold(&self) -> (r: bool)
        ensures
            r == is_on_hold_spec(*self),
    {
        str_eq(self.status.as_str(), "on_hold")
    }

    /// The job is an approval job on hold.
    pub fn is_pending_approval(&self) -> (r: bool)
        ensures
            r == is_pending_approval_spec(*self),
    {
        self.is_on_hold() && self.is_approval()
    }
}

} // verus!
