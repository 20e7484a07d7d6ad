//! The approve mode: the resolution pipeline from a git reference to an
//! approved CI job, as a state machine. Each step takes the state and the
//! result of the last remote call, and gives the next state and the next
//! remote call to make, or the final outcome.
use vstd::prelude::*;

use crate::services::circleci::{first_candidate_index, WorkflowJobs};
use crate::services::github::{first_gate_index, workflow_id_in, TasksResponse};
use crate::services::GatewayError;

verus! {

/// Resolves and approves the manual-approval gate of a reference.
pub struct ApproveHandler;

/// Why a resolution failed.
#[derive(Debug, Clone, Copy, PartialEq, Eq, Structural)]
pub enum ResolveError {
    /// A remote fetch failed; the gateway's error is passed on unchanged.
    Gateway(GatewayError),
    /// The URL of the chosen status entry names no workflow run.
    IdentifierExtractionFailed,
    /// The workflow has no approval job on hold.
    NoPendingApprovalJob,
    /// The approval job on hold carries no approval-request identifier.
    MissingApprovalRequestId,
    /// The approval request was not accepted.
    ApprovalSubmissionFailed,
}

/// How one resolution ended.
#[derive(Debug, Clone, Copy, PartialEq, Eq, Structural)]
pub enum Outcome {
    /// The approval was submitted and accepted.
    Approved,
    /// The reference has no pending approval gate: nothing to approve.
    NoGateFound,
    Failed(ResolveError),
}

/// Where a resolution stands.
pub enum ResolverState {
    /// Waiting for the commit status of the reference.
    AwaitingStatus,
    /// Waiting for the job list of the workflow with this identifier.
    AwaitingJobs(String),
    /// Waiting for the answer to the approval request.
    AwaitingApproval,
    Done(Outcome),
}

/// The result of the remote call that the last action asked for.
pub enum Event {
    StatusFetched(Result<TasksResponse, GatewayError>),
    JobsFetched(Result<WorkflowJobs, GatewayError>),
    ApprovalSubmitted(Result<(), GatewayError>),
}

/// What the caller does next.
pub enum Action {
    /// Fetch the commit status of this reference.
    FetchStatus(String),
    /// Fetch the jobs of this workflow.
    FetchJobs(String),
    /// Approve this approval request (second) of this workflow (first).
    Approve(String, String),
    /// Stop: the resolution is over.
    Finish(Outcome),
}

/// The abstract state of a resolution.
pub ghost enum Phase {
    AwaitingStatus,
    AwaitingJobs(Seq<char>),
    AwaitingApproval,
    Done(Outcome),
}

/// The abstract next action.
pub ghost enum Step {
    FetchStatus(Seq<char>),
    FetchJobs(Seq<char>),
    Approve(Seq<char>, Seq<char>),
    Finish(Outcome),
}

impl View for ResolverState {
    type V = Phase;

    open spec fn view(&self) -> Phase {
        match self {
            ResolverState::AwaitingStatus => Phase::AwaitingStatus,
            ResolverState::AwaitingJobs(w) => Phase::AwaitingJobs(w@),
            ResolverState::AwaitingApproval => Phase::AwaitingApproval,
            ResolverState::Done(o) => Phase::Done(*o),
        }
    }
}

impl View for Action {
    type V = Step;

    open spec fn view(&self) -> Step {
        match self {
            Action::FetchStatus(r) => Step::FetchStatus(r@),
            Action::FetchJobs(w) => Step::FetchJobs(w@),
            Action::Approve(w, a) => Step::Approve(w@, a@),
            Action::Finish(o) => Step::Finish(*o),
        }
    }
}

/// A resolution ends here with `o`.
pub open spec fn finish(o: Outcome) -> (Phase, Step) {
    (Phase::Done(o), Step::Finish(o))
}

/// The transition on a fetched commit status: the first pending approval
/// gate is chosen, and its target URL must carry a workflow identifier.
pub open spec fn after_status(report: Result<TasksResponse, GatewayError>) -> (Phase, Step) {
    match report {
        Err(g) => finish(Outcome::Failed(ResolveError::Gateway(g))),
        Ok(rep) => match first_gate_index(rep.statuses@) {
            None => finish(Outcome::NoGateFound),
            Some(i) => match workflow_id_in(rep.statuses@[i].target_url@) {
                None => finish(Outcome::Failed(ResolveError::IdentifierExtractionFailed)),
                Some(w) => (Phase::AwaitingJobs(w), Step::FetchJobs(w)),
            },
        },
    }
}

/// The transition on a fetched job list of workflow `w`: the first approval
/// job on hold is chosen, and its approval-request identifier is approved.
pub open spec fn after_jobs(w: Seq<char>, jobs: Result<WorkflowJobs, GatewayError>) -> (
    Phase,
    Step,
) {
    match jobs {
        Err(g) => finish(Outcome::Failed(ResolveError::Gateway(g))),
        Ok(js) => match first_candidate_index(js.items@) {
            None => finish(Outcome::Failed(ResolveError::NoPendingApprovalJob)),
            Some(i) => match js.items@[i].approval_request_id {
                None => finish(Outcome::Failed(ResolveError::MissingApprovalRequestId)),
                Some(a) => (Phase::AwaitingApproval, Step::Approve(w, a@)),
            },
        },
    }
}

/// The transition on the answer to the approval request. Nothing is retried.
pub open spec fn after_approval(res: Result<(), GatewayError>) -> (Phase, Step) {
    match res {
        Ok(_) => finish(Outcome::Approved),
        Err(_) => finish(Outcome::Failed(ResolveError::ApprovalSubmissionFailed)),
    }
}

/// The state waits for this kind of event.
pub open spec fn accepts(p: Phase, e: Event) -> bool {
    match (p, e) {
        (Phase::AwaitingStatus, Event::StatusFetched(_)) => true,
        (Phase::AwaitingJobs(_), Event::JobsFetched(_)) => true,
        (Phase::AwaitingApproval, Event::ApprovalSubmitted(_)) => true,
        _ => false,
    }
}

/// The next state and action, for a state that accepts the event; the last
/// arm is never reached under `accepts`.
pub open spec fn transition(p: Phase, e: Event) -> (Phase, Step) {
    match (p, e) {
        (Phase::AwaitingStatus, Event::StatusFetched(r)) => after_status(r),
        (Phase::AwaitingJobs(w), Event::JobsFetched(r)) => after_jobs(w, r),
        (Phase::AwaitingApproval, Event::ApprovalSubmitted(r)) => after_approval(r),
        _ => (p, Step::Finish(Outcome::NoGateFound)),
    }
}

impl ResolverState {
    /// Whether this state waits for `event`.
    pub fn accepts(&self, event: &Event) -> (r: bool)
        ensures
            r == accepts(self@, *event),
    {
        match (self, event) {
            (ResolverState::AwaitingStatus, Event::StatusFetched(_)) => true,
            (ResolverState::AwaitingJobs(_), Event::JobsFetched(_)) => true,
            (ResolverState::AwaitingApproval, Event::ApprovalSubmitted(_)) => true,
            _ => false,
        }
    }

    /// The outcome, once the resolution is over.
    pub fn outcome(&self) -> (r: Option<Outcome>)
        ensures
            r == match self@ {
                Phase::Done(o) => Some(o),
                _ => None,
            },
    {
        match self {
            ResolverState::Done(o) => Some(*o),
            _ => None,
        }
    }
}

fn finished(o: Outcome) -> (r: (ResolverState, Action))
    ensures
        (r.0@, r.1@) == finish(o),
{
    (ResolverState::Done(o), Action::Finish(o))
}

impl ApproveHandler {
    /// Starts the resolution of `reference`: its commit status is fetched first.
    pub fn start(&self, reference: String) -> (r: (ResolverState, Action))
        ensures
            r.0@ == Phase::AwaitingStatus,
            r.1@ == Step::FetchStatus(reference@),
    {
        (ResolverState::AwaitingStatus, Action::FetchStatus(reference))
    }

    /// Decides on a fetched commit status.
    pub fn on_status(&self, report: Result<TasksResponse, GatewayError>) -> (r: (
        ResolverState,
        Action,
    ))
        ensures
            (r.0@, r.1@) == after_status(report),
    {
        match report {
            Err(g) => finished(Outcome::Failed(ResolveError::Gateway(g))),
            Ok(rep) => match rep.get_approval_task_status() {
                None => finished(Outcome::NoGateFound),
                Some(task) => {
                    let id = task.extract_workflow_id();
                    match id {
                        None => finished(Outcome::Failed(ResolveError::IdentifierExtractionFailed)),
                        Some(w) => {
                            let w2 = w.clone();
                            (ResolverState::AwaitingJobs(w), Action::FetchJobs(w2))
                        },
                    }
                },
            },
        }
    }

    /// Decides on a fetched job list of the workflow `workflow_id`.
    pub fn on_jobs(&self, workflow_id: String, jobs: Result<WorkflowJobs, GatewayError>) -> (r: (
        ResolverState,
        Action,
    ))
        ensures
            (r.0@, r.1@) == after_jobs(workflow_id@, jobs),
    {
        match jobs {
            Err(g) => finished(Outcome::Failed(ResolveError::Gateway(g))),
            Ok(js) => match js.get_pending_approval_job() {
                None => finished(Outcome::Failed(ResolveError::NoPendingApprovalJob)),
                Some(job) => match &job.approval_request_id {
                    None => finished(Outcome::Failed(ResolveError::MissingApprovalRequestId)),
                    Some(a) => (ResolverState::AwaitingApproval, Action::Approve(workflow_id, a.clone())),
                },
            },
        }
    }

    /// Decides on the answer to the approval request.
    pub fn on_approval(&self, res: Result<(), GatewayError>) -> (r: (ResolverState, Action))
        ensures
            (r.0@, r.1@) == after_approval(res),
    {
        match res {
            Ok(_) => finished(Outcome::Approved),
            Err(_) => finished(Outcome::Failed(ResolveError::ApprovalSubmissionFailed)),
        }
    }

    /// One step of the resolution: the next state and action for a state and
    /// the result of the call that the state waits for.
    pub fn step(&self, state: ResolverState, event: Event) -> (r: (ResolverState, Action))
        requires
            accepts(state@, event),
        ensures
            (r.0@, r.1@) == transition(state@, event),
    {
        match (state, event) {
            (ResolverState::AwaitingStatus, Event::StatusFetched(rep)) => self.on_status(rep),
            (ResolverState::AwaitingJobs(w), Event::JobsFetched(js)) => self.on_jobs(w, js),
            (ResolverState::AwaitingApproval, Event::ApprovalSubmitted(res)) => self.on_approval(res),
            (s, _) => {
                assert(false);
                (s, Action::Finish(Outcome::NoGateFound))
            },
        }
    }
}

} // verus!
