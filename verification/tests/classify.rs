use ahagon::event::{classify, EventKind};

#[test]
fn classify_all_kinds() {
    assert_eq!(classify("*"), Some(EventKind::WildCard));
    assert_eq!(classify("commit_comment"), Some(EventKind::CommitComment));
    assert_eq!(classify("create"), Some(EventKind::Create));
    assert_eq!(classify("delete"), Some(EventKind::Delete));
    assert_eq!(classify("deployment"), Some(EventKind::Deployment));
    assert_eq!(classify("deployment_status"), Some(EventKind::DeploymentStatus));
    assert_eq!(classify("fork"), Some(EventKind::Fork));
    assert_eq!(classify("gollum"), Some(EventKind::Gollum));
    assert_eq!(classify("issue_comment"), Some(EventKind::IssueComment));
    assert_eq!(classify("issues"), Some(EventKind::Issues));
    assert_eq!(classify("label"), Some(EventKind::Label));
    assert_eq!(classify("member"), Some(EventKind::Member));
    assert_eq!(classify("membership"), Some(EventKind::Membership));
    assert_eq!(classify("milestone"), Some(EventKind::Milestone));
    assert_eq!(classify("organization"), Some(EventKind::Organization));
    assert_eq!(classify("page_build"), Some(EventKind::PageBuild));
    assert_eq!(classify("project_card"), Some(EventKind::ProjectCard));
    assert_eq!(classify("project_column"), Some(EventKind::ProjectColumn));
    assert_eq!(classify("project"), Some(EventKind::Project));
    assert_eq!(classify("public"), Some(EventKind::Public));
    assert_eq!(
        classify("pull_request_review_comment"),
        Some(EventKind::PullRequestReviewComment)
    );
    assert_eq!(classify("pull_request_review"), Some(EventKind::PullRequestReview));
    assert_eq!(classify("pull_request"), Some(EventKind::PullRequest));
    assert_eq!(classify("push"), Some(EventKind::Push));
    assert_eq!(classify("repository"), Some(EventKind::Repository));
    assert_eq!(classify("release"), Some(EventKind::Release));
    assert_eq!(classify("status"), Some(EventKind::Status));
    assert_eq!(classify("team"), Some(EventKind::Team));
    assert_eq!(classify("team_add"), Some(EventKind::TeamAdd));
    assert_eq!(classify("watch"), Some(EventKind::Watch));
}

#[test]
fn classify_rejects_everything_else() {
    assert_eq!(classify(""), None);
    assert_eq!(classify("Push"), None);
    assert_eq!(classify("PUSH"), None);
    assert_eq!(classify("pushh"), None);
    assert_eq!(classify("pus"), None);
    assert_eq!(classify("pull-request"), None);
    assert_eq!(classify("Team_Add"), None);
    assert_eq!(classify("wildcard"), None);
    assert_eq!(classify("**"), None);
    assert_eq!(classify(" push"), None);
    assert_eq!(classify("push "), None);
}
