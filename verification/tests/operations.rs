use blog_sync::config::{RepositoryConfig, ValidationError};
use blog_sync::error::{out_of_step, outside, Failure, FailureKind, Remedy, Step, SyncError};
use blog_sync::remote::{classify_failure, with_credential};
use blog_sync::export::{export_since, ExportFile};
use blog_sync::manager::{Action, CommitId, Event, Manager, RepoState, Report};
use blog_sync::operations::{list_branches, new_repository, push, remove_repository, set_branch, show, Shown};
use blog_sync::post::Post;
use blog_sync::settings::{insert_needed, repository_key, update_setting, Setting, StoredContent};

fn ada_config() -> RepositoryConfig {
    RepositoryConfig::new("https://example.com/blog-site.git", "Ada", "ada@example.com").unwrap()
}

fn on_main(epoch: i64) -> RepositoryConfig {
    ada_config().with_branch("main".to_string()).with_epoch(epoch)
}

fn refusal(error: SyncError) -> Action {
    Action::Report(Report::Failed(error))
}

fn dated_post(id: i64, created_at: i64) -> Post {
    Post {
        id,
        title: format!("Post {}", id),
        markdown_content: format!("Body {}", id),
        rendered_content: String::new(),
        created_at,
        updated_at: None,
    }
}

#[test]
fn scenario_first_time_setup() {
    let m = Manager::new(None);
    let (m, a) = new_repository(m, "https://example.com/blog-site.git", "Ada", "ada@example.com");
    assert_eq!(a, Action::CreateWorkingCopy(ada_config()));
    let (m, _) = m.step(Event::WorkingCopyCreated(Ok(())));
    let (m, a) = m.step(Event::Persisted(Ok(())));
    assert_eq!(a, Action::Report(Report::Created));
    assert_eq!(m.state(), RepoState::Initialized);

    let remote = vec!["main".to_string(), "drafts".to_string()];
    let (m, a) = list_branches(m);
    assert_eq!(a, Action::QueryBranches);
    let (m, a) = m.step(Event::BranchesListed(Ok(remote.clone())));
    assert_eq!(a, Action::Report(Report::Branches(remote.clone())));

    let (m, _) = set_branch(m, "main");
    let (m, a) = m.step(Event::BranchesListed(Ok(remote)));
    assert_eq!(a, Action::Checkout("main".to_string()));
    let (m, _) = m.step(Event::CheckedOut(Ok(())));
    let (m, a) = m.step(Event::Persisted(Ok(())));
    assert_eq!(a, Action::Report(Report::BranchSelected));
    assert_eq!(m.state(), RepoState::BranchSelected);
}

#[test]
fn scenario_incremental_push() {
    let posts = vec![dated_post(1, 900), dated_post(2, 1500)];
    let m = Manager::new(Some(on_main(1000)));
    let (m, a) = push(m, "token");
    assert_eq!(a, Action::Pull);
    let (m, a) = m.step(Event::Pulled(Ok(())));
    let cutoff = match a {
        Action::Export { cutoff } => cutoff,
        other => panic!("{:?}", other),
    };
    assert_eq!(cutoff, 1000);
    let files = export_since(&posts, cutoff);
    assert_eq!(
        files,
        vec![ExportFile { name: "2.md".to_string(), content: "---\ntitle: \"Post 2\"\n---\n\nBody 2\n".to_string() }]
    );
    let (m, _) = m.step(Event::Exported(Ok(())));
    let (m, a) = m.step(Event::Committed(Ok(Some(CommitId { id: "f00".to_string() }))));
    assert_eq!(a, Action::Push { credential: "token".to_string() });
    let now = 1_700_000_000;
    let (m, a) = m.step(Event::Pushed(Ok(now)));
    assert_eq!(a, Action::Persist(Some(on_main(now))));
    let (m, a) = m.step(Event::Persisted(Ok(())));
    assert_eq!(a, Action::Report(Report::Synced { commit: Some(CommitId { id: "f00".to_string() }), epoch: now }));
    assert_eq!(m.record().as_ref().unwrap().last_export_epoch(), now);
}

#[test]
fn scenario_empty_push() {
    let posts = vec![dated_post(1, 900), dated_post(2, 950)];
    let m = Manager::new(Some(on_main(1000)));
    let (m, _) = push(m, "token");
    let (m, a) = m.step(Event::Pulled(Ok(())));
    assert_eq!(a, Action::Export { cutoff: 1000 });
    assert_eq!(export_since(&posts, 1000), Vec::new());
    let (m, _) = m.step(Event::Exported(Ok(())));
    let (m, a) = m.step(Event::Committed(Ok(None)));
    assert_eq!(a, Action::Push { credential: "token".to_string() });
    let (m, _) = m.step(Event::Pushed(Ok(1234)));
    let (m, a) = m.step(Event::Persisted(Ok(())));
    assert_eq!(a, Action::Report(Report::Synced { commit: None, epoch: 1234 }));
    assert_eq!(m.record().as_ref().unwrap().last_export_epoch(), 1234);
    assert!(m.is_idle());
}

#[test]
fn new_repository_twice_fails_the_second_time() {
    let (m, _) = new_repository(Manager::new(None), "https://example.com/blog-site.git", "Ada", "ada@example.com");
    let (m, _) = m.step(Event::WorkingCopyCreated(Ok(())));
    let (m, _) = m.step(Event::Persisted(Ok(())));
    let (m, a) = new_repository(m, "https://example.com/other.git", "Bob", "bob@example.com");
    assert_eq!(a, refusal(SyncError::RepositoryAlreadyExists));
    assert_eq!(m.record(), &Some(ada_config()));
}

#[test]
fn new_repository_rejects_bad_input_and_changes_nothing() {
    let cases = [
        ("ssh://example.com/site.git", "Ada", "ada@example.com", ValidationError::UrlScheme),
        ("https://example.com/site.git", "", "ada@example.com", ValidationError::EmptyAuthorName),
        ("https://example.com/site.git", "Ada", "ada.example.com", ValidationError::InvalidEmail),
        ("https://", "Ada", "ada@example.com", ValidationError::IllegalAddress),
    ];
    for (url, name, email, error) in cases {
        let (m, a) = new_repository(Manager::new(None), url, name, email);
        assert_eq!(a, refusal(SyncError::Validation(error)));
        assert_eq!(m, Manager::new(None));
        let (m, a) = new_repository(Manager::new(Some(on_main(9))), url, name, email);
        assert_eq!(a, refusal(SyncError::Validation(error)));
        assert_eq!(m, Manager::new(Some(on_main(9))));
    }
}

#[test]
fn remove_repository_asks_for_the_working_copy_to_go() {
    let (m, a) = remove_repository(Manager::new(Some(ada_config())));
    assert_eq!(a, Action::RemoveWorkingCopy(ada_config()));
    let (m, _) = m.step(Event::WorkingCopyRemoved(Ok(())));
    let (m, a) = m.step(Event::Persisted(Ok(())));
    assert_eq!(a, Action::Report(Report::Removed));
    assert_eq!(m, Manager::new(None));
    let (_, a) = remove_repository(m);
    assert_eq!(a, refusal(SyncError::RepositoryNotConfigured));
}

#[test]
fn show_decides_the_page() {
    assert_eq!(show(false, Manager::new(Some(ada_config()))), (Manager::new(Some(ada_config())), Shown::SignIn));
    assert_eq!(show(false, Manager::new(None)), (Manager::new(None), Shown::SignIn));
    assert_eq!(show(true, Manager::new(None)), (Manager::new(None), Shown::Setup));
    assert_eq!(show(true, Manager::new(Some(on_main(3)))), (Manager::new(Some(on_main(3))), Shown::Detail));
    let (m, shown) = show(true, Manager::new(Some(ada_config())));
    assert_eq!(shown, Shown::Asking(Action::QueryBranches));
    assert!(!m.is_idle());
    let (_, shown) = show(true, m);
    assert_eq!(shown, Shown::Asking(refusal(SyncError::SyncInProgress)));
}

#[test]
fn errors_tell_the_operator_what_to_do() {
    assert_eq!(SyncError::Validation(ValidationError::InvalidEmail).remedy(), Remedy::FixInput);
    assert_eq!(SyncError::RepositoryAlreadyExists.remedy(), Remedy::FixInput);
    assert_eq!(SyncError::RepositoryNotConfigured.remedy(), Remedy::FixInput);
    assert_eq!(SyncError::BranchNotSelected.remedy(), Remedy::FixInput);
    assert_eq!(SyncError::BranchNotFound.remedy(), Remedy::FixInput);
    assert_eq!(SyncError::SyncInProgress.remedy(), Remedy::Retry);
    assert_eq!(SyncError::UnexpectedEvent.remedy(), Remedy::ContactOperator);
    assert_eq!(SyncError::OutOfStep { message: "x".to_string() }.remedy(), Remedy::Reinitialize);
    let kinds = [
        (FailureKind::MergeConflict, Remedy::Reinitialize),
        (FailureKind::AuthenticationFailed, Remedy::FixInput),
        (FailureKind::NetworkUnavailable, Remedy::Retry),
        (FailureKind::Git, Remedy::Retry),
        (FailureKind::Io, Remedy::ContactOperator),
        (FailureKind::Storage, Remedy::ContactOperator),
    ];
    for (kind, remedy) in kinds {
        let e = outside(Step::Push, "", Failure { kind, detail: "x".to_string() });
        assert_eq!(e.remedy(), remedy);
    }
}

#[test]
fn error_messages() {
    assert_eq!(SyncError::Validation(ValidationError::UrlScheme).message(), "Url must starts with 'http'.");
    assert_eq!(SyncError::RepositoryAlreadyExists.message(), "A repository is already configured.");
    assert_eq!(SyncError::RepositoryNotConfigured.message(), "No repository is configured.");
    assert_eq!(SyncError::BranchNotSelected.message(), "No branch has been selected.");
    assert_eq!(SyncError::BranchNotFound.message(), "The remote has no such branch.");
    assert_eq!(SyncError::SyncInProgress.message(), "Sync already in progress.");
    assert_eq!(SyncError::UnexpectedEvent.message(), "Internal error: unexpected event.");
    let detail = |d: &str| Failure { kind: FailureKind::Git, detail: d.to_string() };
    assert_eq!(outside(Step::CreateWorkingCopy, "", detail("no remote")).message(), "no remote");
    assert_eq!(outside(Step::ListBranches, "", detail("e")).message(), "Failed getting branches: e");
    assert_eq!(outside(Step::Checkout, "main", detail("e")).message(), "Failed switch branch to main since e");
    assert_eq!(outside(Step::Pull, "", detail("e")).message(), "Failed pull: e");
    assert_eq!(outside(Step::Export, "", detail("e")).message(), "Failed to export posts: e");
    assert_eq!(outside(Step::Commit, "", detail("e")).message(), "Failed to push posts to git: e");
    assert_eq!(outside(Step::Push, "", detail("e")).message(), "Failed to push posts to git: e");
    assert_eq!(outside(Step::RemoveWorkingCopy, "", detail("e")).message(), "Failed remove repository: e");
    assert_eq!(outside(Step::Persist, "", detail("e")).message(), "e");
    assert_eq!(
        out_of_step(&outside(Step::Persist, "", detail("locked")), detail("index busy")),
        SyncError::OutOfStep {
            message: "locked; the working copy could not be put back: index busy".to_string()
        }
    );
    assert_eq!(
        out_of_step(&SyncError::BranchNotFound, detail("d")).message(),
        "The remote has no such branch.; the working copy could not be put back: d"
    );
    assert_eq!(
        outside(Step::Pull, "", Failure { kind: FailureKind::MergeConflict, detail: "d".to_string() }),
        SyncError::Outside { step: Step::Pull, kind: FailureKind::MergeConflict, message: "Failed pull: d".to_string() }
    );
}

#[test]
fn settings_decide_what_is_stored() {
    let setting = |item: &str, content: &str| Setting { item: item.to_string(), content: content.to_string() };
    assert_eq!(
        update_setting(setting("admin_password", "secret")),
        ("admin_password".to_string(), StoredContent::Encrypted("secret".to_string()))
    );
    assert_eq!(
        update_setting(setting("admin_password", "")),
        ("admin_password".to_string(), StoredContent::Plain(String::new()))
    );
    assert_eq!(
        update_setting(setting("git_repository", "{}")),
        ("git_repository".to_string(), StoredContent::Plain("{}".to_string()))
    );
    assert!(insert_needed(0));
    assert!(!insert_needed(1));
    assert!(!insert_needed(7));
    assert_eq!(repository_key(), "git_repository");
}


#[test]
fn failures_are_told_from_what_the_tool_wrote() {
    let cases = [
        ("fatal: Authentication failed for 'https://example.com/site.git/'", FailureKind::AuthenticationFailed),
        ("fatal: could not read Username for 'https://example.com': terminal prompts disabled", FailureKind::AuthenticationFailed),
        ("fatal: unable to access 'https://example.com/': The requested URL returned error: 403", FailureKind::AuthenticationFailed),
        ("fatal: unable to access 'https://example.com/': Could not resolve host: example.com", FailureKind::NetworkUnavailable),
        ("fatal: unable to access 'https://example.com/': SSL connect error", FailureKind::NetworkUnavailable),
        ("ssh: connect to host example.com port 22: Connection timed out", FailureKind::NetworkUnavailable),
        ("fatal: Not possible to fast-forward, aborting.", FailureKind::MergeConflict),
        ("CONFLICT (content): Merge conflict in 1.md", FailureKind::MergeConflict),
        ("hint: You have diverged branches", FailureKind::MergeConflict),
        ("fatal: not a git repository", FailureKind::Git),
        ("authentication failed", FailureKind::Git),
        ("", FailureKind::Git),
    ];
    for (said, kind) in cases {
        assert_eq!(classify_failure(said), kind, "{}", said);
    }
}

#[test]
fn the_credential_goes_behind_the_scheme() {
    assert_eq!(with_credential("https://example.com/site.git", "token"), "https://token@example.com/site.git");
    assert_eq!(with_credential("http://h/x://y", "ada:pw"), "http://ada:pw@h/x://y");
    assert_eq!(with_credential("https://example.com/site.git", ""), "https://example.com/site.git");
    assert_eq!(with_credential("http/example", "token"), "http/example");
    assert_eq!(with_credential("http://", "t"), "http://t@");
    assert_eq!(with_credential("", "t"), "");
}
