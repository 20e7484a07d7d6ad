use ci_manager::config::{Config, Credentials};
use ci_manager::handlers::{mode_to_handler, reference_arg, Handler};
use ci_manager::services::{circleci, github, GatewayError};
use ci_manager::Session;

fn config() -> Config {
    Config {
        credentials: Credentials {
            github_token: String::from("SECRET-REDACTED"),
            github_username: String::from("octo"),
            circleci_token: String::from("SECRET-REDACTED"),
        },
        repo: String::from("widgets"),
        repo_owner: String::from("acme"),
    }
}

fn args(v: &[&str]) -> Vec<String> {
    v.iter().map(|s| s.to_string()).collect()
}

#[test]
fn modes_map_to_handlers() {
    assert!(matches!(mode_to_handler("approve"), Ok(Handler::Approve(_))));
    assert!(matches!(mode_to_handler("status"), Ok(Handler::Status(_))));
    assert_eq!(mode_to_handler("deploy").err(), Some("Invalid mode given"));
}

#[test]
fn session_needs_a_mode() {
    let r = Session::new(args(&["prog"]), config());
    assert_eq!(r.err(), Some("Didn't get a mode! Accepts `approve` or `status`"));
    let r = Session::new(args(&["prog", "nope"]), config());
    assert_eq!(r.err(), Some("Invalid mode given"));
}

#[test]
fn session_keeps_arguments_after_mode() {
    let s = Session::new(args(&["prog", "approve", "main", "x"]), config()).ok().unwrap();
    assert!(matches!(s.handler, Handler::Approve(_)));
    assert_eq!(s.args, args(&["main", "x"]));
    assert_eq!(s.config.repo, "widgets");
}

#[test]
fn reference_is_first_argument() {
    assert_eq!(reference_arg(&args(&["v1.2", "x"])), Ok(&String::from("v1.2")));
    assert_eq!(reference_arg(&args(&[])), Err("Please pass in a reference"));
}

#[test]
fn github_paths() {
    let c = config();
    let g = github::Client::new(&c);
    assert_eq!(g.repo_path(), "https://api.github.com/repos/acme/widgets");
    assert_eq!(
        g.ref_status_path("main"),
        "https://api.github.com/repos/acme/widgets/commits/main/status"
    );
}

#[test]
fn circleci_paths() {
    let c = config();
    let ci = circleci::Client::new(&c);
    assert_eq!(ci.get_workflow_jobs_url("wf-1"), "https://circleci.com/api/v2/workflow/wf-1/job");
    assert_eq!(
        ci.get_approve_job_url("wf-1", "req-9"),
        "https://circleci.com/api/v2/workflow/wf-1/approve/req-9"
    );
}

#[test]
fn response_classification() {
    let c = config();
    let g = github::Client::new(&c);
    assert_eq!(g.parse_status_response(false, None).err(), Some(GatewayError::StatusFetchFailed));
    assert_eq!(g.parse_status_response(true, None).err(), Some(GatewayError::MalformedResponse));
    let ok = g.parse_status_response(
        true,
        Some(github::TasksResponse { state: String::from("success"), statuses: vec![] }),
    );
    assert_eq!(ok.ok().unwrap().state, "success");
    let ci = circleci::Client::new(&c);
    assert_eq!(ci.parse_workflow_job_response(false, None).err(), Some(GatewayError::JobFetchFailed));
    assert_eq!(ci.parse_workflow_job_response(true, None).err(), Some(GatewayError::MalformedResponse));
    assert!(ci.parse_workflow_job_response(true, Some(circleci::WorkflowJobs { items: vec![] })).is_ok());
    assert_eq!(ci.approval_response(Some(true)), Ok(()));
    assert_eq!(ci.approval_response(Some(false)), Err(GatewayError::ApprovalFailed));
    assert_eq!(ci.approval_response(None), Err(GatewayError::ApprovalFailed));
}
