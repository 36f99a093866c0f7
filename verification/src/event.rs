//! The closed taxonomy of callback event kinds, and the total,
//! case-sensitive classification of a wire string into a kind.

use vstd::prelude::*;
use crate::strutil::str_eq;

verus! {

/// The closed set of recognized callback event kinds.  `WildCard` is a
/// valid explicit wire value (`"*"`), distinct from an unrecognized
/// string, which classifies to nothing at all.
#[derive(Clone, Copy, Debug, PartialEq, Eq, Structural)]
pub enum EventKind {
    WildCard,
    CommitComment,
    Create,
    Delete,
    Deployment,
    DeploymentStatus,
    Fork,
    Gollum,
    IssueComment,
    Issues,
    Label,
    Member,
    Membership,
    Milestone,
    Organization,
    PageBuild,
    ProjectCard,
    ProjectColumn,
    Project,
    Public,
    PullRequestReviewComment,
    PullRequestReview,
    PullRequest,
    Push,
    Repository,
    Release,
    Status,
    Team,
    TeamAdd,
    Watch,
}

/// The wire string of each event kind.
pub open spec fn wire(k: EventKind) -> Seq<char> {
    match k {
        EventKind::WildCard => "*"@,
        EventKind::CommitComment => "commit_comment"@,
        EventKind::Create => "create"@,
        EventKind::Delete => "delete"@,
        EventKind::Deployment => "deployment"@,
        EventKind::DeploymentStatus => "deployment_status"@,
        EventKind::Fork => "fork"@,
        EventKind::Gollum => "gollum"@,
        EventKind::IssueComment => "issue_comment"@,
        EventKind::Issues => "issues"@,
        EventKind::Label => "label"@,
        EventKind::Member => "member"@,
        EventKind::Membership => "membership"@,
        EventKind::Milestone => "milestone"@,
        EventKind::Organization => "organization"@,
        EventKind::PageBuild => "page_build"@,
        EventKind::ProjectCard => "project_card"@,
        EventKind::ProjectColumn => "project_column"@,
        EventKind::Project => "project"@,
        EventKind::Public => "public"@,
        EventKind::PullRequestReviewComment => "pull_request_review_comment"@,
        EventKind::PullRequestReview => "pull_request_review"@,
        EventKind::PullRequest => "pull_request"@,
        EventKind::Push => "push"@,
        EventKind::Repository => "repository"@,
        EventKind::Release => "release"@,
        EventKind::Status => "status"@,
        EventKind::Team => "team"@,
        EventKind::TeamAdd => "team_add"@,
        EventKind::Watch => "watch"@,
    }
}

/// What `classify` returns on a given wire string: the kind whose wire
/// string it equals, or nothing when it equals none of them.
pub open spec fn classify_spec(s: Seq<char>) -> Option<EventKind> {
    if s == wire(EventKind::WildCard) {
        Some(EventKind::WildCard)
    } else if s == wire(EventKind::CommitComment) {
        Some(EventKind::CommitComment)
    } else if s == wire(EventKind::Create) {
        Some(EventKind::Create)
    } else if s == wire(EventKind::Delete) {
        Some(EventKind::Delete)
    } else if s == wire(EventKind::Deployment) {
        Some(EventKind::Deployment)
    } else if s == wire(EventKind::DeploymentStatus) {
        Some(EventKind::DeploymentStatus)
    } else if s == wire(EventKind::Fork) {
        Some(EventKind::Fork)
    } else if s == wire(EventKind::Gollum) {
        Some(EventKind::Gollum)
    } else if s == wire(EventKind::IssueComment) {
        Some(EventKind::IssueComment)
    } else if s == wire(EventKind::Issues) {
        Some(EventKind::Issues)
    } else if s == wire(EventKind::Label) {
        Some(EventKind::Label)
    } else if s == wire(EventKind::Member) {
        Some(EventKind::Member)
    } else if s == wire(EventKind::Membership) {
        Some(EventKind::Membership)
    } else if s == wire(EventKind::Milestone) {
        Some(EventKind::Milestone)
    } else if s == wire(EventKind::Organization) {
        Some(EventKind::Organization)
    } else if s == wire(EventKind::PageBuild) {
        Some(EventKind::PageBuild)
    } else if s == wire(EventKind::ProjectCard) {
        Some(EventKind::ProjectCard)
    } else if s == wire(EventKind::ProjectColumn) {
        Some(EventKind::ProjectColumn)
    } else if s == wire(EventKind::Project) {
        Some(EventKind::Project)
    } else if s == wire(EventKind::Public) {
        Some(EventKind::Public)
    } else if s == wire(EventKind::PullRequestReviewComment) {
        Some(EventKind::PullRequestReviewComment)
    } else if s == wire(EventKind::PullRequestReview) {
        Some(EventKind::PullRequestReview)
    } else if s == wire(EventKind::PullRequest) {
        Some(EventKind::PullRequest)
    } else if s == wire(EventKind::Push) {
        Some(EventKind::Push)
    } else if s == wire(EventKind::Repository) {
        Some(EventKind::Repository)
    } else if s == wire(EventKind::Release) {
        Some(EventKind::Release)
    } else if s == wire(EventKind::Status) {
        Some(EventKind::Status)
    } else if s == wire(EventKind::Team) {
        Some(EventKind::Team)
    } else if s == wire(EventKind::TeamAdd) {
        Some(EventKind::TeamAdd)
    } else if s == wire(EventKind::Watch) {
        Some(EventKind::Watch)
    } else {
        None
    }
}

/// Classify a wire string into an event kind.  Total and
/// case-sensitive: exactly the thirty wire strings are accepted, and
/// every other string (the empty string included) classifies to `None`.
pub fn classify(s: &str) -> (r: Option<EventKind>)
    ensures
        r == classify_spec(s@),
{
    if str_eq(s, "*") {
        Some(EventKind::WildCard)
    } else if str_eq(s, "commit_comment") {
        Some(EventKind::CommitComment)
    } else if str_eq(s, "create") {
        Some(EventKind::Create)
    } else if str_eq(s, "delete") {
        Some(EventKind::Delete)
    } else if str_eq(s, "deployment") {
        Some(EventKind::Deployment)
    } else if str_eq(s, "deployment_status") {
        Some(EventKind::DeploymentStatus)
    } else if str_eq(s, "fork") {
        Some(EventKind::Fork)
    } else if str_eq(s, "gollum") {
        Some(EventKind::Gollum)
    } else if str_eq(s, "issue_comment") {
        Some(EventKind::IssueComment)
    } else if str_eq(s, "issues") {
        Some(EventKind::Issues)
    } else if str_eq(s, "label") {
        Some(EventKind::Label)
    } else if str_eq(s, "member") {
        Some(EventKind::Member)
    } else if str_eq(s, "membership") {
        Some(EventKind::Membership)
    } else if str_eq(s, "milestone") {
        Some(EventKind::Milestone)
    } else if str_eq(s, "organization") {
        Some(EventKind::Organization)
    } else if str_eq(s, "page_build") {
        Some(EventKind::PageBuild)
    } else if str_eq(s, "project_card") {
        Some(EventKind::ProjectCard)
    } else if str_eq(s, "project_column") {
        Some(EventKind::ProjectColumn)
    } else if str_eq(s, "project") {
        Some(EventKind::Project)
    } else if str_eq(s, "public") {
        Some(EventKind::Public)
    } else if str_eq(s, "pull_request_review_comment") {
        Some(EventKind::PullRequestReviewComment)
    } else if str_eq(s, "pull_request_review") {
        Some(EventKind::PullRequestReview)
    } else if str_eq(s, "pull_request") {
        Some(EventKind::PullRequest)
    } else if str_eq(s, "push") {
        Some(EventKind::Push)
    } else if str_eq(s, "repository") {
        Some(EventKind::Repository)
    } else if str_eq(s, "release") {
        Some(EventKind::Release)
    } else if str_eq(s, "status") {
        Some(EventKind::Status)
    } else if str_eq(s, "team") {
        Some(EventKind::Team)
    } else if str_eq(s, "team_add") {
        Some(EventKind::TeamAdd)
    } else if str_eq(s, "watch") {
        Some(EventKind::Watch)
    } else {
        None
    }
}

/// A string is accepted exactly when it is the wire string of some
/// kind, and whatever classifies to a kind is that kind's wire string:
/// the classification is total over the closed set and rejects
/// everything outside it.
pub proof fn lemma_classify_exact(s: Seq<char>)
    ensures
        (classify_spec(s) is Some) <==> (exists|k: EventKind| s == wire(k)),
        forall|k: EventKind| classify_spec(s) == Some(k) ==> s == #[trigger] wire(k),
{
    reveal_strlit("*");
    reveal_strlit("commit_comment");
    reveal_strlit("create");
    reveal_strlit("delete");
    reveal_strlit("deployment");
    reveal_strlit("deployment_status");
    reveal_strlit("fork");
    reveal_strlit("gollum");
    reveal_strlit("issue_comment");
    reveal_strlit("issues");
    reveal_strlit("label");
    reveal_strlit("member");
    reveal_strlit("membership");
    reveal_strlit("milestone");
    reveal_strlit("organization");
    reveal_strlit("page_build");
    reveal_strlit("project_card");
    reveal_strlit("project_column");
    reveal_strlit("project");
    reveal_strlit("public");
    reveal_strlit("pull_request_review_comment");
    reveal_strlit("pull_request_review");
    reveal_strlit("pull_request");
    reveal_strlit("push");
    reveal_strlit("repository");
    reveal_strlit("release");
    reveal_strlit("status");
    reveal_strlit("team");
    reveal_strlit("team_add");
    reveal_strlit("watch");
}

/// Every wire string classifies back to its own kind.
pub proof fn lemma_wire_classifies(k: EventKind)
    ensures
        classify_spec(wire(k)) == Some(k),
{
    reveal_strlit("*");
    reveal_strlit("commit_comment");
    reveal_strlit("create");
    reveal_strlit("delete");
    reveal_strlit("deployment");
    reveal_strlit("deployment_status");
    reveal_strlit("fork");
    reveal_strlit("gollum");
    reveal_strlit("issue_comment");
    reveal_strlit("issues");
    reveal_strlit("label");
    reveal_strlit("member");
    reveal_strlit("membership");
    reveal_strlit("milestone");
    reveal_strlit("organization");
    reveal_strlit("page_build");
    reveal_strlit("project_card");
    reveal_strlit("project_column");
    reveal_strlit("project");
    reveal_strlit("public");
    reveal_strlit("pull_request_review_comment");
    reveal_strlit("pull_request_review");
    reveal_strlit("pull_request");
    reveal_strlit("push");
    reveal_strlit("repository");
    reveal_strlit("release");
    reveal_strlit("status");
    reveal_strlit("team");
    reveal_strlit("team_add");
    reveal_strlit("watch");
    assert("*"@.len() == 1);
    assert("commit_comment"@.len() == 14 && "commit_comment"@[0] == 'c');
    assert("create"@.len() == 6 && "create"@[0] == 'c');
    assert("delete"@.len() == 6 && "delete"@[0] == 'd');
    assert("deployment"@.len() == 10 && "deployment"@[0] == 'd');
    assert("deployment_status"@.len() == 17);
    assert("fork"@.len() == 4 && "fork"@[0] == 'f');
    assert("gollum"@.len() == 6 && "gollum"@[0] == 'g');
    assert("issue_comment"@.len() == 13);
    assert("issues"@.len() == 6 && "issues"@[0] == 'i');
    assert("label"@.len() == 5 && "label"@[0] == 'l');
    assert("member"@.len() == 6 && "member"@[0] == 'm');
    assert("membership"@.len() == 10 && "membership"@[0] == 'm');
    assert("milestone"@.len() == 9);
    assert("organization"@.len() == 12 && "organization"@[0] == 'o');
    assert("page_build"@.len() == 10 && "page_build"@[0] == 'p');
    assert("project_card"@.len() == 12 && "project_card"@[0] == 'p' && "project_card"@[1]
        == 'r');
    assert("project_column"@.len() == 14 && "project_column"@[0] == 'p');
    assert("project"@.len() == 7 && "project"@[0] == 'p');
    assert("public"@.len() == 6 && "public"@[0] == 'p');
    assert("pull_request_review_comment"@.len() == 27);
    assert("pull_request_review"@.len() == 19);
    assert("pull_request"@.len() == 12 && "pull_request"@[0] == 'p' && "pull_request"@[1]
        == 'u');
    assert("push"@.len() == 4 && "push"@[0] == 'p');
    assert("repository"@.len() == 10 && "repository"@[0] == 'r');
    assert("release"@.len() == 7 && "release"@[0] == 'r');
    assert("status"@.len() == 6 && "status"@[0] == 's');
    assert("team"@.len() == 4 && "team"@[0] == 't');
    assert("team_add"@.len() == 8);
    assert("watch"@.len() == 5 && "watch"@[0] == 'w');
    match k {
        EventKind::WildCard => assert(classify_spec(wire(k)) == Some(k)),
        EventKind::CommitComment => assert(classify_spec(wire(k)) == Some(k)),
        EventKind::Create => assert(classify_spec(wire(k)) == Some(k)),
        EventKind::Delete => assert(classify_spec(wire(k)) == Some(k)),
        EventKind::Deployment => assert(classify_spec(wire(k)) == Some(k)),
        EventKind::DeploymentStatus => assert(classify_spec(wire(k)) == Some(k)),
        EventKind::Fork => assert(classify_spec(wire(k)) == Some(k)),
        EventKind::Gollum => assert(classify_spec(wire(k)) == Some(k)),
        EventKind::IssueComment => assert(classify_spec(wire(k)) == Some(k)),
        EventKind::Issues => assert(classify_spec(wire(k)) == Some(k)),
        EventKind::Label => assert(classify_spec(wire(k)) == Some(k)),
        EventKind::Member => assert(classify_spec(wire(k)) == Some(k)),
        EventKind::Membership => assert(classify_spec(wire(k)) == Some(k)),
        EventKind::Milestone => assert(classify_spec(wire(k)) == Some(k)),
        EventKind::Organization => assert(classify_spec(wire(k)) == Some(k)),
        EventKind::PageBuild => assert(classify_spec(wire(k)) == Some(k)),
        EventKind::ProjectCard => assert(classify_spec(wire(k)) == Some(k)),
        EventKind::ProjectColumn => assert(classify_spec(wire(k)) == Some(k)),
        EventKind::Project => assert(classify_spec(wire(k)) == Some(k)),
        EventKind::Public => assert(classify_spec(wire(k)) == Some(k)),
        EventKind::PullRequestReviewComment => assert(classify_spec(wire(k)) == Some(k)),
        EventKind::PullRequestReview => assert(classify_spec(wire(k)) == Some(k)),
        EventKind::PullRequest => assert(classify_spec(wire(k)) == Some(k)),
        EventKind::Push => assert(classify_spec(wire(k)) == Some(k)),
        EventKind::Repository => assert(classify_spec(wire(k)) == Some(k)),
        EventKind::Release => assert(classify_spec(wire(k)) == Some(k)),
        EventKind::Status => assert(classify_spec(wire(k)) == Some(k)),
        EventKind::Team => assert(classify_spec(wire(k)) == Some(k)),
        EventKind::TeamAdd => assert(classify_spec(wire(k)) == Some(k)),
        EventKind::Watch => assert(classify_spec(wire(k)) == Some(k)),
    }
}

} // verus!
