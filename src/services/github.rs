//! The source-control host: commit status reports and the rules that find an
//! approval gate in them.
use vstd::prelude::*;

use crate::config::Config;
use crate::services::{shift_index, GatewayError};
use crate::text::{contains_seq, contains_str, occurs_at, str_eq};

verus! {

/// Base of the repository endpoints of the source-control host.
pub open spec fn repo_base_path() -> Seq<char> {
    "https://api.github.com/repos"@
}

/// The substring of a check's context that marks it as an approval gate.
pub open spec fn approval_marker() -> Seq<char> {
    "start-testing"@
}

/// The path segment that precedes a workflow identifier in a target URL.
pub open spec fn workflow_run_prefix() -> Seq<char> {
    "workflow-run/"@
}

/// The pattern handed to the regex engine to find the workflow identifier.
pub open spec fn workflow_id_pattern() -> Seq<char> {
    "workflow-run/([\\w-]+)"@
}

/// Whether the regex engine's `\w` class, in its default Unicode mode,
/// matches `c`: alphabetic characters, marks, decimal digits and connector
/// punctuation.
pub uninterp spec fn is_word_char(c: char) -> bool;

/// A character that may stand in a workflow identifier: a word character or `-`.
pub open spec fn is_token_char(c: char) -> bool {
    c == '-' || is_word_char(c)
}

/// The end of the run of token characters that starts at `j`.
pub open spec fn token_end(s: Seq<char>, j: int) -> int
    decreases s.len() - j,
{
    if 0 <= j < s.len() && is_token_char(s[j]) {
        token_end(s, j + 1)
    } else {
        j
    }
}

/// At `i` the URL holds the prefix followed by at least one token character.
pub open spec fn workflow_match_at(url: Seq<char>, i: int) -> bool {
    &&& occurs_at(url, workflow_run_prefix(), i)
    &&& i + workflow_run_prefix().len() < url.len()
    &&& is_token_char(url[i + workflow_run_prefix().len()])
}

/// The token of the first match at or after position `i`.
pub open spec fn workflow_id_from(url: Seq<char>, i: int) -> Option<Seq<char>>
    decreases url.len() - i,
{
    if i < 0 || i >= url.len() {
        None
    } else if workflow_match_at(url, i) {
        let j = i + workflow_run_prefix().len();
        Some(url.subrange(j, token_end(url, j)))
    } else {
        workflow_id_from(url, i + 1)
    }
}

/// The workflow identifier that a target URL carries: the token characters
/// after the first `workflow-run/` that is followed by at least one of them.
pub open spec fn workflow_id_in(url: Seq<char>) -> Option<Seq<char>> {
    workflow_id_from(url, 0)
}

/// From `j`, the token run ends at the end of `s` or before its first
/// character that is no token character.
pub proof fn lemma_token_end(s: Seq<char>, j: int)
    requires
        0 <= j <= s.len(),
    ensures
        j <= token_end(s, j) <= s.len(),
        forall|k: int| j <= k < token_end(s, j) ==> is_token_char(#[trigger] s[k]),
        token_end(s, j) == s.len() || !is_token_char(s[token_end(s, j)]),
    decreases s.len() - j,
{
    if j < s.len() && is_token_char(s[j]) {
        lemma_token_end(s, j + 1);
    }
}

/// The search from `i` yields the token after the first match at or after `i`.
proof fn lemma_workflow_id_from(url: Seq<char>, i: int)
    requires
        0 <= i,
    ensures
        match workflow_id_from(url, i) {
            Some(t) => exists|m: int|
                i <= m && #[trigger] workflow_match_at(url, m) && (forall|k: int|
                    i <= k < m ==> !workflow_match_at(url, k)) && t == url.subrange(
                    m + workflow_run_prefix().len(),
                    token_end(url, m + workflow_run_prefix().len()),
                ),
            None => forall|k: int| i <= k ==> !workflow_match_at(url, k),
        },
    decreases url.len() - i,
{
    if i < url.len() && !workflow_match_at(url, i) {
        lemma_workflow_id_from(url, i + 1);
    }
}

/// What extraction yields: a non-empty run of token characters that starts
/// right after the first `workflow-run/` followed by a token character, and
/// stops at the end of the URL or at its first character that is no token
/// character. Without such a prefix nothing is extracted.
pub proof fn lemma_workflow_id_shape(url: Seq<char>)
    ensures
        match workflow_id_in(url) {
            Some(t) => exists|m: int|
                {
                    let start = m + workflow_run_prefix().len();
                    &&& #[trigger] workflow_match_at(url, m)
                    &&& forall|k: int| 0 <= k < m ==> !workflow_match_at(url, k)
                    &&& t.len() >= 1
                    &&& t == url.subrange(start, start + t.len())
                    &&& forall|k: int| 0 <= k < t.len() ==> is_token_char(#[trigger] t[k])
                    &&& (start + t.len() == url.len() || !is_token_char(url[start + t.len()]))
                },
            None => forall|k: int| !workflow_match_at(url, k),
        },
{
    lemma_workflow_id_from(url, 0);
    match workflow_id_in(url) {
        Some(t) => {
            let m = choose|m: int|
                0 <= m && #[trigger] workflow_match_at(url, m) && (forall|k: int|
                    0 <= k < m ==> !workflow_match_at(url, k)) && t == url.subrange(
                    m + workflow_run_prefix().len(),
                    token_end(url, m + workflow_run_prefix().len()),
                );
            let start = m + workflow_run_prefix().len();
            lemma_token_end(url, start);
            assert(is_token_char(url[start]));
            assert(token_end(url, start) == token_end(url, start + 1));
            lemma_token_end(url, start + 1);
            assert forall|k: int| 0 <= k < t.len() implies is_token_char(#[trigger] t[k]) by {
                assert(t[k] == url[start + k]);
            }
            assert(workflow_match_at(url, m));
        },
        None => {
            assert forall|k: int| !workflow_match_at(url, k) by {
                if k < 0 {
                    assert(!occurs_at(url, workflow_run_prefix(), k));
                }
            }
        },
    }
}

/// The view of an optional string.
pub open spec fn opt_view(o: Option<String>) -> Option<Seq<char>> {
    match o {
        Some(s) => Some(s@),
        None => None,
    }
}

/// Relies on regex::Regex::new, regex::Regex::captures and
/// regex::Captures::get. With the pattern `workflow-run/([\w-]+)` the search
/// is leftmost-first and the repetition greedy, so capture group 1 is the
/// maximal token run after the first prefix that has one. `\w` is Unicode
/// aware and is left as the name `is_word_char`.
#[verifier::external_body]
fn first_capture(pattern: &str, text: &str) -> (r: Option<String>)
    requires
        pattern@ == workflow_id_pattern(),
    ensures
        opt_view(r) == workflow_id_in(text@),
        r matches Some(t) ==> forall|k: int|
            0 <= k < t@.len() ==> t@[k] == '-' || #[trigger] is_word_char(t@[k]),
{
    let re = regex::Regex::new(pattern).unwrap();
    match re.captures(text) {
        Some(caps) => match caps.get(1) {
            Some(m) => Some(m.as_str().to_string()),
            None => None,
        },
        None => None,
    }
}

/// Extracts the workflow identifier from a check's target URL.
pub fn extract_workflow_id_from_url(url: &str) -> (r: Option<String>)
    ensures
        opt_view(r) == workflow_id_in(url@),
{
    first_capture("workflow-run/([\\w-]+)", url)
}

/// A client of the source-control host, bound to one configuration.
pub struct Client<'a> {
    pub config: &'a Config,
}

impl<'a> Client<'a> {
    pub fn new(config: &'a Config) -> (r: Self)
        ensures
            r.config == config,
    {
        Client { config }
    }

    /// The endpoint of the configured repository.
    pub fn repo_path(&self) -> (r: String)
        ensures
            r@ == repo_base_path() + "/"@ + self.config.repo_owner@ + "/"@ + self.config.repo@,
    {
        let r = String::from_str("https://api.github.com/repos");
        let r = r.concat("/");
        let r = r.concat(self.config.repo_owner.as_str());
        let r = r.concat("/");
        r.concat(self.config.repo.as_str())
    }

    /// The endpoint that reports the combined commit status of `ref_name`.
    pub fn ref_status_path(&self, ref_name: &str) -> (r: String)
        ensures
            r@ == repo_base_path() + "/"@ + self.config.repo_owner@ + "/"@ + self.config.repo@
                + "/commits/"@ + ref_name@ + "/status"@,
    {
        let r = self.repo_path();
        let r = r.concat("/commits/");
        let r = r.concat(ref_name);
        r.concat("/status")
    }

    /// Turns a status response into a report: a non-success HTTP status, or a
    /// failed transport (`status_ok` false), fails the fetch; a success whose
    /// body did not decode (`body` empty) is a malformed response.
    pub fn parse_status_response(&self, status_ok: bool, body: Option<TasksResponse>) -> (r: Result<
        TasksResponse,
        GatewayError,
    >)
        ensures
            !status_ok ==> r == Err::<TasksResponse, GatewayError>(GatewayError::StatusFetchFailed),
            status_ok && body.is_none() ==> r == Err::<TasksResponse, GatewayError>(
                GatewayError::MalformedResponse,
            ),
            status_ok && body.is_some() ==> r == Ok::<TasksResponse, GatewayError>(body.unwrap()),
    {
        if !status_ok {
            Err(GatewayError::StatusFetchFailed)
        } else {
            match body {
                Some(b) => Ok(b),
                None => Err(GatewayError::MalformedResponse),
            }
        }
    }
}

/// The combined status of one commit: an aggregate state and its checks, in
/// the order the host returned them.
#[derive(Debug)]
pub struct TasksResponse {
    pub state: String,
    pub statuses: Vec<Status>,
}

/// One status check on a commit.
#[derive(Debug)]
pub struct Status {
    pub id: usize,
    pub state: String,
    pub description: String,
    pub target_url: String,
    pub context: String,
    pub created_at: String,
}

/// The check's context carries the approval marker.
pub open spec fn requires_approval_spec(s: Status) -> bool {
    contains_seq(s.context@, approval_marker())
}

/// The check is pending.
pub open spec fn is_pending_spec(s: Status) -> bool {
    s.state@ == "pending"@
}

/// The check is a pending approval gate.
pub open spec fn is_approval_gate(s: Status) -> bool {
    requires_approval_spec(s) && is_pending_spec(s)
}

/// The index of the first pending approval gate in `statuses`, if any.
pub open spec fn first_gate_index(statuses: Seq<Status>) -> Option<int>
    decreases statuses.len(),
{
    if statuses.len() == 0 {
        None
    } else if is_approval_gate(statuses[0]) {
        Some(0)
    } else {
        match first_gate_index(statuses.drop_first()) {
            Some(i) => Some(i + 1),
            None => None,
        }
    }
}

/// The first pending approval gate is a pending approval gate, every entry
/// before it fails the marker test or the pending test, and without one no
/// entry passes both.
pub proof fn lemma_first_gate(statuses: Seq<Status>)
    ensures
        match first_gate_index(statuses) {
            Some(i) => {
                &&& 0 <= i < statuses.len()
                &&& is_approval_gate(statuses[i])
                &&& forall|j: int| 0 <= j < i ==> !is_approval_gate(#[trigger] statuses[j])
            },
            None => forall|j: int| 0 <= j < statuses.len() ==> !is_approval_gate(#[trigger] statuses[j]),
        },
    decreases statuses.len(),
{
    if statuses.len() > 0 && !is_approval_gate(statuses[0]) {
        let rest = statuses.drop_first();
        lemma_first_gate(rest);
        assert forall|j: int| 1 <= j < statuses.len() implies statuses[j] == rest[j - 1] by {}
    }
}

impl TasksResponse {
    /// The first check, in the order given, that is a pending approval gate.
    pub fn get_approval_task_status(&self) -> (r: Option<&Status>)
        ensures
            match r {
                Some(s) => exists|i: int|
                    0 <= i < self.statuses@.len() && first_gate_index(self.statuses@) == Some(i)
                        && *s == self.statuses@[i],
                None => first_gate_index(self.statuses@).is_none(),
            },
    {
        let mut i: usize = 0;
        assert(self.statuses@.subrange(0, self.statuses@.len() as int) =~= self.statuses@);
        while i < self.statuses.len()
            invariant
                i <= self.statuses@.len(),
                first_gate_index(self.statuses@) == shift_index(first_gate_index(
                    self.statuses@.subrange(i as int, self.statuses@.len() as int),
                ), i as int),
            decreases self.statuses@.len() - i,
        {
            let s = &self.statuses[i];
            if s.requires_approval() && s.is_pending() {
                assert(self.statuses@.subrange(i as int, self.statuses@.len() as int)[0] == self.statuses@[i as int]);
                return Some(s);
            }
            proof {
                let rest = self.statuses@.subrange(i as int, self.statuses@.len() as int);
                assert(rest.drop_first() =~= self.statuses@.subrange(
                    i + 1,
                    self.statuses@.len() as int,
                ));
            }
            i = i + 1;
        }
        None
    }
}

impl Status {
    /// The check's context carries the approval marker.
    pub fn requires_approval(&self) -> (r: bool)
        ensures
            r == requires_approval_spec(*self),
    {
        contains_str(self.context.as_str(), "start-testing")
    }

    /// The check is pending.
    pub fn is_pending(&self) -> (r: bool)
        ensures
            r == is_pending_spec(*self),
    {
        str_eq(self.state.as_str(), "pending")
    }

    /// The workflow identifier that the check's target URL carries, if any;
    /// it depends on the URL alone.
    pub fn extract_workflow_id(&self) -> (r: Option<String>)
        ensures
            opt_view(r) == workflow_id_in(self.target_url@),
    {
        extract_workflow_id_from_url(self.target_url.as_str())
    }
}

} // verus!
