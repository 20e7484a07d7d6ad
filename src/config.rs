//! The credentials and repository identity that both gateways are built from.
use vstd::prelude::*;

verus! {

/// Repository identity and credentials, loaded once and never mutated.
#[derive(Debug)]
pub struct Config {
    pub credentials: Credentials,
    pub repo: String,
    pub repo_owner: String,
}

/// Secrets for the source-control host and the CI host.
#[derive(Debug)]
pub struct Credentials {
    pub github_token: String,
    pub github_username: String,
    pub circleci_token: String,
}

} // verus!
