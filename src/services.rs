//! Data shapes and request rules of the two remote services.
use vstd::prelude::*;

pub mod circleci;
pub mod github;

verus! {

/// A failure of one remote call, as a gateway reports it.
#[derive(Debug, Clone, Copy, PartialEq, Eq, Structural)]
pub enum GatewayError {
    /// The commit status could not be fetched: transport failure or non-success status.
    StatusFetchFailed,
    /// The job list could not be fetched: transport failure or non-success status.
    JobFetchFailed,
    /// A success response whose body did not decode into the expected shape.
    MalformedResponse,
    /// The approval request failed: transport failure or non-success status.
    ApprovalFailed,
}

/// An optional index moved forward by `k`.
pub open spec fn shift_index(o: Option<int>, k: int) -> Option<int> {
    match o {
        Some(i) => Some(i + k),
        None => None,
    }
}

} // verus!
