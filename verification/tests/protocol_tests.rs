use gitbox::command::Outcome;
use gitbox::error::{ErrorKind, GitboxError};
use gitbox::protocol::{sync_command, sync_first, sync_next, SyncNotice, SyncStage, SyncStep};

fn ok(stdout: &str) -> Outcome {
    Outcome::success(stdout)
}

fn fail(stderr: &str) -> Outcome {
    Outcome::failure(stderr)
}

/// Drives the protocol with scripted outcomes and returns the stages that
/// ran, the notices given, and how the run ended.
fn run(script: Vec<Outcome>) -> (Vec<SyncStage>, Vec<SyncNotice>, Option<Result<SyncNotice, GitboxError>>) {
    let mut stage = sync_first();
    let mut stages = vec![stage];
    let mut notices = Vec::new();
    for outcome in script.iter() {
        match sync_next(stage, outcome, "notes", "main") {
            SyncStep::Run { stage: next, notice } => {
                if let Some(n) = notice {
                    notices.push(n);
                }
                stage = next;
                stages.push(stage);
            }
            SyncStep::Done(n) => return (stages, notices, Some(Ok(n))),
            SyncStep::Failed(e) => return (stages, notices, Some(Err(e))),
        }
    }
    (stages, notices, None)
}

#[test]
fn run_begins_with_the_remote_check() {
    assert_eq!(sync_first(), SyncStage::CheckRemote);
}

#[test]
fn commands_of_every_stage() {
    let args = |s: SyncStage| sync_command(s, "trunk");
    assert_eq!(args(SyncStage::CheckRemote), ["remote", "get-url", "origin"]);
    assert_eq!(args(SyncStage::CheckBranch), ["rev-parse", "--verify", "trunk"]);
    assert_eq!(args(SyncStage::CreateBranch), ["checkout", "-b", "trunk"]);
    assert_eq!(
        args(SyncStage::Pull),
        ["pull", "--no-rebase", "--allow-unrelated-histories", "origin", "trunk"]
    );
    assert_eq!(args(SyncStage::Status), ["status", "--porcelain"]);
    assert_eq!(args(SyncStage::Stage), ["add", "."]);
    assert_eq!(args(SyncStage::Commit), ["commit", "-m", "Update synced files"]);
    assert_eq!(args(SyncStage::Push), ["push", "-u", "origin", "trunk"]);
    assert_eq!(args(SyncStage::MergePull), args(SyncStage::Pull));
    assert_eq!(args(SyncStage::RetryPush), ["push", "origin", "trunk"]);
}

#[test]
fn missing_remote_is_reported_by_name() {
    let (stages, _, end) = run(vec![fail("error: No such remote 'origin'")]);
    assert_eq!(stages, [SyncStage::CheckRemote]);
    let err = end.unwrap().unwrap_err();
    assert_eq!(err.kind(), ErrorKind::NoRemoteConfigured);
    assert_eq!(
        err.message(),
        "Repository 'notes' has no remote origin configured. Please run 'gitbox add-repo notes' first or manually configure the remote."
    );
}

#[test]
fn missing_branch_is_created() {
    let (stages, notices, end) = run(vec![
        ok("git@host:u/notes.git\n"),
        fail("fatal: Needed a single revision"),
        ok(""),
        ok(""),
        ok(""),
        ok(""),
    ]);
    assert_eq!(
        stages,
        [
            SyncStage::CheckRemote,
            SyncStage::CheckBranch,
            SyncStage::CreateBranch,
            SyncStage::Pull,
            SyncStage::Status,
            SyncStage::Push
        ]
    );
    assert_eq!(
        notices,
        [SyncNotice::BranchCreated, SyncNotice::Pulled, SyncNotice::NothingToCommit]
    );
    assert_eq!(end.unwrap().unwrap(), SyncNotice::Pushed);
}

#[test]
fn branch_that_cannot_be_created_is_fatal() {
    let (_, _, end) = run(vec![ok("url"), fail("no rev"), fail("fatal: cannot lock ref")]);
    let err = end.unwrap().unwrap_err();
    assert_eq!(err.kind(), ErrorKind::BranchCreateFailed);
    assert_eq!(err.message(), "Failed to create branch 'main': fatal: cannot lock ref");
}

#[test]
fn failed_pull_never_ends_the_run() {
    for (stderr, notice) in [
        ("There is no upstream configured", SyncNotice::UpstreamMissing),
        ("Could not resolve host: github.com", SyncNotice::PullWarning),
        ("fatal: no upstream branch", SyncNotice::UpstreamMissing),
        ("fatal: couldn't find remote ref main", SyncNotice::UpstreamMissing),
        ("network unreachable", SyncNotice::PullWarning),
    ] {
        match sync_next(SyncStage::Pull, &fail(stderr), "notes", "main") {
            SyncStep::Run { stage, notice: n } => {
                assert_eq!(stage, SyncStage::Status);
                assert_eq!(n, Some(notice), "for {:?}", stderr);
            }
            other => panic!("pull must not end the run: {:?}", other),
        }
    }
}

#[test]
fn pending_changes_are_staged_and_committed_once() {
    let (stages, notices, end) =
        run(vec![ok("url"), ok("sha"), ok(""), ok(" M files/a.txt\n"), ok(""), ok(""), ok("")]);
    assert_eq!(
        stages,
        [
            SyncStage::CheckRemote,
            SyncStage::CheckBranch,
            SyncStage::Pull,
            SyncStage::Status,
            SyncStage::Stage,
            SyncStage::Commit,
            SyncStage::Push
        ]
    );
    assert_eq!(notices, [SyncNotice::Pulled, SyncNotice::Committed]);
    assert_eq!(end.unwrap().unwrap(), SyncNotice::Pushed);
}

#[test]
fn second_run_without_changes_makes_no_commit() {
    // First run: the working tree has changes, which are committed.
    let (first, _, first_end) =
        run(vec![ok("url"), ok("sha"), ok(""), ok("?? files/a.txt\n"), ok(""), ok(""), ok("")]);
    assert_eq!(first.iter().filter(|s| **s == SyncStage::Commit).count(), 1);
    assert!(first_end.unwrap().is_ok());
    // Second run: nothing changed in between, so the status is empty.
    let (second, notices, second_end) = run(vec![ok("url"), ok("sha"), ok(""), ok(""), ok("")]);
    assert!(!second.contains(&SyncStage::Stage));
    assert!(!second.contains(&SyncStage::Commit));
    assert!(notices.contains(&SyncNotice::NothingToCommit));
    assert_eq!(second_end.unwrap().unwrap(), SyncNotice::Pushed);
}

#[test]
fn failed_status_is_fatal() {
    let (_, _, end) = run(vec![ok("url"), ok("sha"), ok(""), fail("fatal: not a git repository")]);
    let err = end.unwrap().unwrap_err();
    assert_eq!(err.kind(), ErrorKind::Collaborator);
    assert_eq!(err.message(), "Failed to check git status");
}

#[test]
fn failed_staging_and_commit_are_fatal() {
    let (_, _, end) = run(vec![ok("url"), ok("sha"), ok(""), ok("M x"), fail("index locked")]);
    let err = end.unwrap().unwrap_err();
    assert_eq!(err.kind(), ErrorKind::CommitFailed);
    assert_eq!(err.message(), "Failed to add changes: index locked");

    let (stages, _, end) =
        run(vec![ok("url"), ok("sha"), ok(""), ok("M x"), ok(""), fail("nothing to commit")]);
    assert_eq!(*stages.last().unwrap(), SyncStage::Commit);
    let err = end.unwrap().unwrap_err();
    assert_eq!(err.kind(), ErrorKind::CommitFailed);
    assert_eq!(err.message(), "Failed to commit changes: nothing to commit");
}

#[test]
fn rejected_push_is_retried_exactly_once() {
    let rejected = " ! [rejected]        main -> main (non-fast-forward)";
    let (stages, notices, end) =
        run(vec![ok("url"), ok("sha"), ok(""), ok(""), fail(rejected), ok(""), ok("")]);
    assert_eq!(
        stages,
        [
            SyncStage::CheckRemote,
            SyncStage::CheckBranch,
            SyncStage::Pull,
            SyncStage::Status,
            SyncStage::Push,
            SyncStage::MergePull,
            SyncStage::RetryPush
        ]
    );
    assert!(notices.contains(&SyncNotice::PushRejected));
    assert_eq!(end.unwrap().unwrap(), SyncNotice::MergedAndPushed);
    assert_eq!(stages.iter().filter(|s| **s == SyncStage::MergePull).count(), 1);
    assert_eq!(stages.iter().filter(|s| **s == SyncStage::RetryPush).count(), 1);
}

#[test]
fn second_rejection_fails_and_does_not_loop() {
    let rejected = "error: failed to push some refs (non-fast-forward)";
    let (stages, _, end) = run(vec![
        ok("url"),
        ok("sha"),
        ok(""),
        ok(""),
        fail(rejected),
        ok(""),
        fail(rejected),
        ok(""),
        ok(""),
    ]);
    assert_eq!(*stages.last().unwrap(), SyncStage::RetryPush);
    assert_eq!(stages.len(), 7);
    let err = end.unwrap().unwrap_err();
    assert_eq!(err.kind(), ErrorKind::PushFailed);
    assert!(matches!(err, GitboxError::RetryPushFailed(_)));
    assert_eq!(
        err.message(),
        "Failed to push after merge: error: failed to push some refs (non-fast-forward)"
    );
}

#[test]
fn failed_merge_after_rejection_is_fatal() {
    let (_, _, end) =
        run(vec![ok("url"), ok("sha"), ok(""), ok(""), fail("! [rejected] (fetch first)"), fail("CONFLICT in a.txt")]);
    let err = end.unwrap().unwrap_err();
    assert_eq!(err.kind(), ErrorKind::PushFailed);
    assert_eq!(err.message(), "Failed to pull and merge: CONFLICT in a.txt");
}

#[test]
fn push_declined_by_the_server_is_not_retried() {
    let declined = " ! [remote rejected] main -> main (pre-receive hook declined)";
    let (stages, _, end) = run(vec![ok("url"), ok("sha"), ok(""), ok(""), fail(declined), ok(""), ok("")]);
    assert_eq!(stages.iter().filter(|s| **s == SyncStage::Push).count(), 1);
    assert!(!stages.contains(&SyncStage::MergePull));
    assert!(!stages.contains(&SyncStage::RetryPush));
    let err = end.unwrap().unwrap_err();
    assert!(matches!(err, GitboxError::PushFailed(_)));
    assert_eq!(err.kind(), ErrorKind::PushFailed);
    assert_eq!(
        err.message(),
        "Failed to push to GitHub:  ! [remote rejected] main -> main (pre-receive hook declined)"
    );
}

#[test]
fn push_that_must_fetch_first_is_retried() {
    let behind = " ! [rejected]        main -> main (fetch first)";
    let (stages, _, end) = run(vec![ok("url"), ok("sha"), ok(""), ok(""), fail(behind), ok(""), ok("")]);
    assert_eq!(*stages.last().unwrap(), SyncStage::RetryPush);
    assert_eq!(end.unwrap().unwrap(), SyncNotice::MergedAndPushed);
}

#[test]
fn push_failure_for_another_reason_is_not_retried() {
    let (stages, _, end) =
        run(vec![ok("url"), ok("sha"), ok(""), ok(""), fail("Permission denied (publickey).")]);
    assert_eq!(*stages.last().unwrap(), SyncStage::Push);
    let err = end.unwrap().unwrap_err();
    assert_eq!(err.kind(), ErrorKind::PushFailed);
    assert_eq!(err.message(), "Failed to push to GitHub: Permission denied (publickey).");
}

#[test]
fn command_that_cannot_start_is_fatal_at_every_stage() {
    let cases = [
        (SyncStage::CheckRemote, "Failed to check remote origin"),
        (SyncStage::CheckBranch, "Failed to check current branch"),
        (SyncStage::CreateBranch, "Failed to create default branch"),
        (SyncStage::Pull, "Failed to execute git pull"),
        (SyncStage::Status, "Failed to execute git status"),
        (SyncStage::Stage, "Failed to execute git add"),
        (SyncStage::Commit, "Failed to execute git commit"),
        (SyncStage::Push, "Failed to execute git push"),
        (SyncStage::MergePull, "Failed to execute git pull for merge"),
        (SyncStage::RetryPush, "Failed to execute retry git push"),
    ];
    for (stage, context) in cases {
        let outcome = Outcome::NotStarted("No such file or directory".to_string());
        match sync_next(stage, &outcome, "notes", "main") {
            SyncStep::Failed(e) => {
                assert_eq!(e.kind(), ErrorKind::Collaborator);
                assert_eq!(e.message(), format!("{}: No such file or directory", context));
            }
            other => panic!("expected a failure at {:?}, got {:?}", stage, other),
        }
    }
}

#[test]
fn no_stage_runs_twice_whatever_the_outcomes() {
    // Every script of ten outcomes over three kinds of reports.
    let kinds = |k: u32| match k {
        0 => ok("M x"),
        1 => fail("(non-fast-forward)"),
        _ => ok(""),
    };
    let mut code: u32 = 0;
    while code < 3u32.pow(10) {
        let mut script = Vec::new();
        let mut c = code;
        for _ in 0..10 {
            script.push(kinds(c % 3));
            c /= 3;
        }
        let (stages, _, _) = run(script);
        assert!(stages.len() <= 10);
        for (i, s) in stages.iter().enumerate() {
            assert!(!stages[..i].contains(s), "stage {:?} ran twice", s);
        }
        code += 97;
    }
}
