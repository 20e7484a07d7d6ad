use ci_manager::services::circleci::{WorkflowJob, WorkflowJobs};
use ci_manager::services::github::{extract_workflow_id_from_url, Status, TasksResponse};
use ci_manager::text::{contains_str, str_eq};

fn status(id: usize, state: &str, context: &str, target_url: &str) -> Status {
    Status {
        id,
        state: state.to_string(),
        description: String::from("a check"),
        target_url: target_url.to_string(),
        context: context.to_string(),
        created_at: String::from("2020-01-01T00:00:00Z"),
    }
}

fn job(id: &str, job_type: &str, status: &str, approval_request_id: Option<&str>) -> WorkflowJob {
    WorkflowJob {
        name: format!("job-{}", id),
        project_slug: String::from("gh/owner/repo"),
        job_type: job_type.to_string(),
        approval_request_id: approval_request_id.map(|s| s.to_string()),
        status: status.to_string(),
        id: id.to_string(),
    }
}

fn report(statuses: Vec<Status>) -> TasksResponse {
    TasksResponse { state: String::from("pending"), statuses }
}

#[test]
fn extract_takes_token_after_prefix() {
    assert_eq!(
        extract_workflow_id_from_url("https://x/workflow-run/abc-123/foo"),
        Some(String::from("abc-123"))
    );
}

#[test]
fn extract_without_prefix_is_none() {
    assert_eq!(extract_workflow_id_from_url("https://x/no-match-here"), None);
}

#[test]
fn extract_stops_at_first_non_token_char() {
    assert_eq!(
        extract_workflow_id_from_url("https://x/workflow-run/ab_C-9.json?x=1"),
        Some(String::from("ab_C-9"))
    );
    assert_eq!(
        extract_workflow_id_from_url("https://x/workflow-run/wf-1"),
        Some(String::from("wf-1"))
    );
}

#[test]
fn extract_needs_one_token_char() {
    assert_eq!(extract_workflow_id_from_url("https://x/workflow-run/"), None);
    assert_eq!(extract_workflow_id_from_url("https://x/workflow-run/.abc"), None);
}

#[test]
fn extract_uses_first_prefix_with_a_token() {
    assert_eq!(
        extract_workflow_id_from_url("a/workflow-run//b/workflow-run/second/workflow-run/third"),
        Some(String::from("second"))
    );
}

#[test]
fn status_extract_depends_on_url_alone() {
    let gate = status(1, "pending", "ci/start-testing", "https://x/workflow-run/abc-123/foo");
    assert_eq!(gate.extract_workflow_id(), Some(String::from("abc-123")));
    let other = status(2, "success", "ci/build", "https://x/workflow-run/abc-123/foo");
    assert_eq!(other.extract_workflow_id(), Some(String::from("abc-123")));
    let plain = status(3, "pending", "ci/start-testing", "https://x/no-match-here");
    assert_eq!(plain.extract_workflow_id(), None);
}

#[test]
fn extract_takes_non_ascii_letters() {
    assert_eq!(
        extract_workflow_id_from_url("https://x/workflow-run/\u{e9}"),
        Some(String::from("\u{e9}"))
    );
    assert_eq!(
        extract_workflow_id_from_url("https://x/workflow-run/a\u{e9}b-1/foo"),
        Some(String::from("a\u{e9}b-1"))
    );
}

#[test]
fn status_predicates() {
    let s = status(1, "pending", "ci/start-testing-gate", "u");
    assert!(s.requires_approval());
    assert!(s.is_pending());
    let t = status(2, "success", "ci/start-test", "u");
    assert!(!t.requires_approval());
    assert!(!t.is_pending());
}

#[test]
fn gate_selection_picks_first_pending_marked_check() {
    let r = report(vec![
        status(1, "success", "ci/start-testing", "u1"),
        status(2, "pending", "ci/build", "u2"),
        status(3, "pending", "ci/start-testing-a", "u3"),
        status(4, "pending", "ci/start-testing-b", "u4"),
    ]);
    let chosen = r.get_approval_task_status().unwrap();
    assert_eq!(chosen.id, 3);
}

#[test]
fn gate_selection_same_in_every_order() {
    let base = [
        ("success", "ci/start-testing"),
        ("pending", "ci/build"),
        ("pending", "ci/start-testing"),
        ("failure", "lint"),
    ];
    let perms: [[usize; 4]; 6] = [
        [0, 1, 2, 3],
        [3, 2, 1, 0],
        [1, 0, 3, 2],
        [2, 3, 0, 1],
        [0, 3, 1, 2],
        [1, 2, 0, 3],
    ];
    for p in perms.iter() {
        let statuses: Vec<Status> =
            p.iter().map(|&k| status(k, base[k].0, base[k].1, "u")).collect();
        let r = report(statuses);
        let chosen = r.get_approval_task_status().unwrap();
        assert_eq!(chosen.id, 2);
    }
}

#[test]
fn gate_selection_none_without_match() {
    let r = report(vec![
        status(1, "success", "ci/start-testing", "u1"),
        status(2, "pending", "ci/build", "u2"),
    ]);
    assert!(r.get_approval_task_status().is_none());
    assert!(report(vec![]).get_approval_task_status().is_none());
}

#[test]
fn candidate_selection_picks_first_approval_on_hold() {
    let js = WorkflowJobs {
        items: vec![
            job("a", "build", "on_hold", None),
            job("b", "approval", "success", Some("req-1")),
            job("c", "approval", "on_hold", Some("req-2")),
            job("d", "approval", "on_hold", Some("req-3")),
        ],
    };
    let chosen = js.get_pending_approval_job().unwrap();
    assert_eq!(chosen.id, "c");
    assert_eq!(chosen.approval_request_id, Some(String::from("req-2")));
}

#[test]
fn candidate_with_request_but_not_on_hold_is_not_chosen() {
    let js = WorkflowJobs {
        items: vec![
            job("b", "approval", "running", Some("req-1")),
            job("e", "build", "on_hold", Some("req-4")),
        ],
    };
    assert!(js.get_pending_approval_job().is_none());
}

#[test]
fn job_predicates() {
    let j = job("a", "approval", "on_hold", Some("r"));
    assert!(j.is_approval() && j.is_on_hold() && j.is_pending_approval());
    let k = job("b", "approval", "blocked", None);
    assert!(k.is_approval() && !k.is_on_hold() && !k.is_pending_approval());
}

#[test]
fn text_helpers() {
    assert!(contains_str("ci/start-testing-gate", "start-testing"));
    assert!(contains_str("abc", ""));
    assert!(!contains_str("start-test", "start-testing"));
    assert!(str_eq("pending", "pending"));
    assert!(!str_eq("pending", "pendin"));
}

#[test]
fn candidate_choice_ignores_other_jobs() {
    let a = WorkflowJobs {
        items: vec![
            job("x", "build", "success", None),
            job("c", "approval", "on_hold", Some("req-2")),
            job("y", "approval", "running", Some("req-5")),
        ],
    };
    let b = WorkflowJobs {
        items: vec![
            job("y", "approval", "running", Some("req-5")),
            job("z", "test", "on_hold", None),
            job("c", "approval", "on_hold", Some("req-2")),
            job("x", "build", "success", None),
        ],
    };
    assert_eq!(a.get_pending_approval_job().unwrap().id, "c");
    assert_eq!(b.get_pending_approval_job().unwrap().id, "c");
}
