use gbksync::git::{from_git, CommitMode, amend_choice, amend_plan, check_is_updated, commit_amend, commit_files, commit_message, commit_plan, compare_commits, open, plan_push, push, push_plan, staged_count, tracking_branch, AmendChoice, ProxyChoice, push_with_command, remote_branch_name, remotes_until_unnamed, same_id, stage_files, GitError, ObjectId, PushStep};
use gbksync::git_service::{commit_kind, push_due, CommitKind, GitService};

fn temp_repo(name: &str) -> String {
    format!("/tmp/gbksync-tests/{}", name)
}

#[test]
fn names_and_messages() {
    assert_eq!(remote_branch_name("main"), "origin/main");
    assert_eq!(commit_message(), "Update file");
    assert_eq!(GitError::NoBranchName.message(), "Failed to get current branch name");
    assert_eq!(GitError::NoWorkdir.message(), "Failed to get repository working directory");
    assert_eq!(GitError::NoPushBranch.message(), "Failed find remote");
    assert_eq!(GitError::Command("boom".to_string()).message(), "boom");
}

#[test]
fn ids_compare_bytewise() {
    let a = ObjectId { bytes: vec![1, 2, 3] };
    let b = ObjectId { bytes: vec![1, 2, 3] };
    let c = ObjectId { bytes: vec![1, 2, 4] };
    let d = ObjectId { bytes: vec![1, 2] };
    assert!(same_id(&a, &b));
    assert!(!same_id(&a, &c));
    assert!(!same_id(&a, &d));
}

#[test]
fn remotes_stop_at_first_unnamed() {
    let names = vec![Some("origin".to_string()), Some("backup".to_string()), None, Some("late".to_string())];
    assert_eq!(remotes_until_unnamed(names), vec!["origin".to_string(), "backup".to_string()]);
    assert_eq!(remotes_until_unnamed(vec![None, Some("x".to_string())]), Vec::<String>::new());
}

#[test]
fn decisions_of_a_cycle() {
    assert!(push_due(3, false));
    assert!(!push_due(3, true));
    assert!(!push_due(4, false));
    assert!(push_due(6, false));
    assert!(matches!(commit_kind(true), CommitKind::Fresh));
    assert!(matches!(commit_kind(false), CommitKind::Amend));
}

#[test]
fn new_service_settings() {
    let mut service = GitService::new(&temp_repo("settings")).ok().unwrap();
    assert_eq!(service.interval(), 10);
    assert_eq!(service.cycle_count(), 0);
    assert!(!service.running());
    assert_eq!(service.set_interval(30).interval(), 30);
    service.start();
    assert!(service.running());
    service.stop();
    assert!(!service.running());
    assert!(service.toggle());
    assert!(!service.toggle());
}

#[test]
fn cycles_on_an_empty_repository() {
    let mut service = GitService::new(&temp_repo("cycles")).ok().unwrap();
    let first = service.sync_once();
    assert_eq!(first.cycle, 1);
    assert!(!first.up_to_date_before);
    assert_eq!(first.staged, Some(0));
    assert_eq!(first.up_to_date_after, None);
    assert!(first.commit.is_none());
    assert!(first.made.is_none());
    assert!(!first.push_due);
    let second = service.sync_once();
    assert_eq!(second.cycle, 2);
    assert!(!second.push_due);
    let third = service.sync_once();
    assert_eq!(third.cycle, 3);
    assert!(third.push_due);
    assert_eq!(service.cycle_count(), 3);
}

#[test]
fn empty_repository_has_no_branch_to_compare_or_push() {
    let service = GitService::new(&temp_repo("unborn")).ok().unwrap();
    assert!(matches!(check_is_updated(service.repository()), Err(GitError::Library(_))));
    assert_eq!(stage_files(service.repository()).ok(), Some(0));
    assert!(matches!(push_with_command(service.repository()), Err(GitError::Library(_))));
}

#[test]
fn push_run_goes_through_remotes_in_order() {
    let dir = temp_repo("pushrun");
    let repo = git2::Repository::init(&dir).unwrap();
    let _ = repo.remote("origin", "https://example.invalid/a.git");
    let _ = repo.remote("zbackup", "https://example.invalid/b.git");
    let sig = git2::Signature::now("t", "t@example.invalid").unwrap();
    let tree_id = repo.index().unwrap().write_tree().unwrap();
    let tree = repo.find_tree(tree_id).unwrap();
    if repo.head().is_err() {
        repo.commit(Some("HEAD"), &sig, &sig, "init", &tree, &[]).unwrap();
    }
    let branch = repo.head().unwrap().shorthand().unwrap().to_string();
    let mut run = match push_with_command(&repo) {
        Ok(run) => run,
        Err(e) => panic!("{}", e.message()),
    };
    assert_eq!(run.workdir().canonicalize().unwrap(), std::path::Path::new(&dir).canonicalize().unwrap());
    match run.current() {
        PushStep::Run(c) => {
            assert_eq!(c.remote, "origin");
            assert_eq!(c.branch, branch);
        }
        PushStep::Done(_) => panic!("expected a command"),
    }
    match run.on_started(Ok(())) {
        PushStep::Run(c) => assert_eq!(c.remote, "zbackup"),
        PushStep::Done(_) => panic!("expected a command"),
    }
    match run.on_started(Err("no git".to_string())) {
        PushStep::Done(Err(GitError::Command(t))) => assert_eq!(t, "no git"),
        _ => panic!("expected a failed push"),
    }
}

fn repo_with_identity(name: &str) -> git2::Repository {
    let dir = temp_repo(name);
    let repo = git2::Repository::init(&dir).unwrap();
    let mut cfg = repo.config().unwrap();
    cfg.set_str("user.name", "tester").unwrap();
    cfg.set_str("user.email", "tester@example.invalid").unwrap();
    repo
}

fn head_id(repo: &git2::Repository) -> Vec<u8> {
    repo.head().unwrap().peel_to_commit().unwrap().id().as_bytes().to_vec()
}

#[test]
fn commits_and_comparison_with_remote_branch() {
    let repo = repo_with_identity("compare");
    let first = match commit_files(&repo) {
        Ok(c) => {
            assert!(matches!(c.mode, CommitMode::New));
            c.id
        }
        Err(e) => panic!("{}", e.message()),
    };
    assert_eq!(first.bytes.len(), 20);
    assert_eq!(first.bytes, head_id(&repo));
    let head = repo.head().unwrap();
    let branch = head.shorthand().unwrap().to_string();
    let head_commit = head.peel_to_commit().unwrap();
    assert_eq!(head_commit.message().ok(), Some("Update file"));
    repo.reference(&format!("refs/remotes/origin/{}", branch), head_commit.id(), true, "test").unwrap();
    assert!(matches!(check_is_updated(&repo), Ok(true)));

    let second = match commit_files(&repo) {
        Ok(c) => c.id,
        Err(e) => panic!("{}", e.message()),
    };
    assert!(!same_id(&first, &second));
    assert_eq!(repo.head().unwrap().peel_to_commit().unwrap().parent_count(), 1);
    assert!(matches!(check_is_updated(&repo), Ok(false)));

    let amended = match commit_amend(&repo) {
        Ok(c) => {
            assert!(matches!(c.mode, CommitMode::Amended));
            c.id
        }
        Err(e) => panic!("{}", e.message()),
    };
    assert_eq!(amended.bytes, head_id(&repo));
    assert_eq!(repo.head().unwrap().peel_to_commit().unwrap().parent_count(), 1);
}

#[test]
fn push_to_unknown_remote_fails() {
    let repo = repo_with_identity("push-unknown");
    let mut asked = false;
    assert!(matches!(push(&repo, "nowhere", || { asked = true; None }), Err(GitError::Library(_))));
    assert!(!asked);
    assert!(matches!(push(&repo, "nowhere", || Some("http://127.0.0.1:1".to_string())), Err(GitError::Library(_))));
}

#[test]
fn open_creates_a_repository() {
    let dir = temp_repo("open");
    assert!(open(&dir).is_ok());
    assert!(git2::Repository::open(&dir).is_ok());
    assert!(matches!(open("/proc/gbksync-cannot-create"), Err(GitError::Library(_))));
}

#[test]
fn bare_repository_has_no_workdir_to_push_from() {
    let repo = git2::Repository::init_bare(temp_repo("bare")).unwrap();
    assert!(matches!(push_with_command(&repo), Err(GitError::NoWorkdir)));
}

#[test]
fn staged_count_counts_added_entries() {
    let failed = || Some(Err(git2::Error::from_str("cannot add")));
    assert_eq!(staged_count(&vec![Some(Ok(())), None, failed(), Some(Ok(())), Some(Ok(()))]), 3);
    assert_eq!(staged_count(&vec![]), 0);
}

#[test]
fn plans_of_commits_amends_and_pushes() {
    let plan = commit_plan(None);
    assert_eq!(plan.update_ref, "HEAD");
    assert_eq!(plan.message, "Update file");
    assert!(plan.parents.is_empty());
    let amend = amend_plan();
    assert_eq!(amend.update_ref, "HEAD");
    assert_eq!(amend.message, "Update file");
    assert!(matches!(amend_choice(true), AmendChoice::AmendHead));
    assert!(matches!(amend_choice(false), AmendChoice::NewCommit));
    let push = push_plan(Some("http://p:1".to_string()));
    assert_eq!(push.refspec, "refs/heads/main:refs/heads/main");
    assert!(matches!(push.proxy, ProxyChoice::Url(ref u) if u == "http://p:1"));
    assert!(matches!(push_plan(None).proxy, ProxyChoice::Auto));
}

#[test]
fn comparison_with_remote_branch() {
    assert!(matches!(tracking_branch(Some("dev".to_string())), Ok(ref t) if t == "origin/dev"));
    assert!(matches!(tracking_branch(None), Err(GitError::NoBranchName)));
    let a = ObjectId { bytes: vec![7; 20] };
    assert!(matches!(compare_commits(&a, Ok(ObjectId { bytes: vec![7; 20] })), Ok(true)));
    assert!(matches!(compare_commits(&a, Ok(ObjectId { bytes: vec![8; 20] })), Ok(false)));
    match compare_commits(&a, Err(git2::Error::from_str("no such branch"))) {
        Err(e) => assert_eq!(e.message(), "no such branch"),
        Ok(_) => panic!("expected the branch error"),
    }
}

#[test]
fn plan_push_needs_a_branch_and_stops_at_unnamed_remote() {
    let dir = std::path::PathBuf::from("/tmp/gbksync-tests/plan");
    let names = || vec![Some("origin".to_string()), None, Some("late".to_string())];
    assert!(matches!(plan_push(None, Ok(names()), Ok(Some("main".to_string()))), Err(GitError::NoWorkdir)));
    match plan_push(Some(dir.clone()), Err(git2::Error::from_str("remotes")), Ok(None)) {
        Err(e) => assert_eq!(e.message(), "remotes"),
        Ok(_) => panic!("expected the remotes error"),
    }
    match plan_push(Some(dir.clone()), Ok(names()), Err(git2::Error::from_str("head"))) {
        Err(e) => assert_eq!(e.message(), "head"),
        Ok(_) => panic!("expected the head error"),
    }
    assert!(matches!(plan_push(Some(dir.clone()), Ok(names()), Ok(None)), Err(GitError::NoPushBranch)));
    let run = match plan_push(Some(dir.clone()), Ok(names()), Ok(Some("main".to_string()))) {
        Ok(run) => run,
        Err(e) => panic!("{}", e.message()),
    };
    assert_eq!(run.workdir(), &dir);
    match run.current() {
        PushStep::Run(c) => {
            assert_eq!(c.remote, "origin");
            assert_eq!(c.branch, "main");
        }
        PushStep::Done(_) => panic!("expected a command"),
    }
}

#[test]
fn missing_remote_branch_is_an_error() {
    let repo = repo_with_identity("no-origin");
    assert!(commit_files(&repo).is_ok());
    assert!(matches!(check_is_updated(&repo), Err(GitError::Library(_))));
}

#[test]
fn amend_without_head_makes_a_root_commit() {
    let repo = repo_with_identity("amend-unborn");
    if repo.head().is_ok() {
        return;
    }
    match commit_amend(&repo) {
        Ok(c) => {
            assert!(matches!(c.mode, CommitMode::NewInsteadOfAmend));
            assert_eq!(c.id.bytes, head_id(&repo));
            assert_eq!(repo.head().unwrap().peel_to_commit().unwrap().parent_count(), 0);
        }
        Err(e) => panic!("{}", e.message()),
    }
}

#[test]
fn git_results_keep_their_error() {
    assert!(matches!(from_git::<u8>(Ok(3)), Ok(3)));
    match from_git::<u8>(Err(git2::Error::from_str("boom"))) {
        Err(e) => assert_eq!(e.message(), "boom"),
        Ok(_) => panic!("expected the error"),
    }
}
