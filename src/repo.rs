//! Repository records and commit statuses.
use vstd::prelude::*;
use crate::datetime::Timestamp;
use crate::user::User;

verus! {

/// The permissions of the requesting user on a repository.
#[derive(Debug, Clone, Copy, PartialEq, Eq, Structural)]
pub struct Permission {
    pub admin: bool,
    pub push: bool,
    pub pull: bool,
}

/// Settings of a repository's internal issue tracker.
#[derive(Debug, Clone, Copy, PartialEq, Eq, Structural)]
pub struct InternalTracker {
    pub enable_time_tracker: bool,
    pub allow_only_contributors_to_track_time: bool,
    pub enable_issue_dependencies: bool,
}

/// A repository; a fork holds the repository it was forked from.
#[derive(Debug)]
pub struct Repository {
    pub id: i64,
    pub owner: User,
    pub name: String,
    pub full_name: String,
    pub description: String,
    pub empty: bool,
    pub private: bool,
    pub fork: bool,
    pub template: bool,
    pub parent: Option<Box<Repository>>,
    pub mirror: bool,
    pub size: i32,
    pub html_url: String,
    pub ssh_url: String,
    pub clone_url: String,
    pub original_url: String,
    pub website: String,
    pub stars_count: i32,
    pub forks_count: i32,
    pub watchers_count: i32,
    pub open_issues_count: i32,
    pub open_pr_counter: i32,
    pub release_counter: i32,
    pub default_branch: String,
    pub archived: bool,
    pub created_at: Timestamp,
    pub updated_at: Timestamp,
    pub permissions: Permission,
    pub has_issues: bool,
    pub internal_tracker: InternalTracker,
    pub has_wiki: bool,
    pub has_pull_requests: bool,
    pub has_projects: bool,
    pub ignore_whitespace_conflicts: bool,
    pub allow_merge_commits: bool,
    pub allow_rebase: bool,
    pub allow_rebase_explicit: bool,
    pub allow_squash_merge: bool,
    pub default_merge_style: String,
    pub avatar_url: String,
    pub internal: bool,
    pub mirror_interval: String,
}

/// The state of a commit status.
#[derive(Debug, Clone, Copy, PartialEq, Eq, Structural)]
pub enum CommitStatusState {
    Pending,
    Success,
    Error,
    Failure,
    Warning,
}

impl CommitStatusState {
    /// The lowercase name of the state on the wire.
    pub open spec fn wire_name(self) -> Seq<char> {
        match self {
            CommitStatusState::Pending => "pending"@,
            CommitStatusState::Success => "success"@,
            CommitStatusState::Error => "error"@,
            CommitStatusState::Failure => "failure"@,
            CommitStatusState::Warning => "warning"@,
        }
    }

    /// The JSON text of the state: its name as a JSON string.
    pub open spec fn json_text(self) -> Seq<char> {
        "\""@ + self.wire_name() + "\""@
    }

    /// The state whose JSON text is `text`, if any.
    pub open spec fn from_json_text(text: Seq<char>) -> Option<CommitStatusState> {
        if text == CommitStatusState::Pending.json_text() {
            Some(CommitStatusState::Pending)
        } else if text == CommitStatusState::Success.json_text() {
            Some(CommitStatusState::Success)
        } else if text == CommitStatusState::Error.json_text() {
            Some(CommitStatusState::Error)
        } else if text == CommitStatusState::Failure.json_text() {
            Some(CommitStatusState::Failure)
        } else if text == CommitStatusState::Warning.json_text() {
            Some(CommitStatusState::Warning)
        } else {
            None
        }
    }

    /// The lowercase name of the state.
    pub fn as_str(&self) -> (r: &'static str)
        ensures
            r@ == self.wire_name(),
    {
        match self {
            CommitStatusState::Pending => "pending",
            CommitStatusState::Success => "success",
            CommitStatusState::Error => "error",
            CommitStatusState::Failure => "failure",
            CommitStatusState::Warning => "warning",
        }
    }

    /// Encodes the state as a JSON string.
    pub fn to_json(&self) -> (r: String)
        ensures
            r@ == self.json_text(),
    {
        let mut text = String::from_str("\"");
        text.append(self.as_str());
        text.append("\"");
        text
    }

    /// Decodes a state from its JSON text; `None` for any other text.
    pub fn from_json(text: &str) -> (r: Option<CommitStatusState>)
        ensures
            r == CommitStatusState::from_json_text(text@),
    {
        let given = String::from_str(text);
        if given == CommitStatusState::Pending.to_json() {
            Some(CommitStatusState::Pending)
        } else if given == CommitStatusState::Success.to_json() {
            Some(CommitStatusState::Success)
        } else if given == CommitStatusState::Error.to_json() {
            Some(CommitStatusState::Error)
        } else if given == CommitStatusState::Failure.to_json() {
            Some(CommitStatusState::Failure)
        } else if given == CommitStatusState::Warning.to_json() {
            Some(CommitStatusState::Warning)
        } else {
            None
        }
    }
}

/// Decoding the JSON text of a commit status state gives that state back.
pub proof fn commit_status_state_round_trip(state: CommitStatusState)
    ensures
        CommitStatusState::from_json_text(state.json_text()) == Some(state),
{
    reveal_strlit("pending");
    reveal_strlit("success");
    reveal_strlit("error");
    reveal_strlit("failure");
    reveal_strlit("warning");
    reveal_strlit("\"");
    assert(CommitStatusState::Pending.json_text()[1] == 'p');
    assert(CommitStatusState::Success.json_text()[1] == 's');
    assert(CommitStatusState::Error.json_text()[1] == 'e');
    assert(CommitStatusState::Failure.json_text()[1] == 'f');
    assert(CommitStatusState::Warning.json_text()[1] == 'w');
}

/// A status attached to a commit.
#[derive(Debug)]
pub struct CommitStatus {
    pub id: i64,
    pub status: CommitStatusState,
    pub target_url: String,
    pub description: String,
    pub url: String,
    pub context: String,
    pub creator: User,
    pub created_at: Timestamp,
    pub updated_at: Timestamp,
}

/// The options for creating a commit status.
#[derive(Debug, Clone)]
pub struct CreateStatusOption {
    pub state: CommitStatusState,
    pub target_url: String,
    pub description: String,
    pub context: String,
}

} // verus!
