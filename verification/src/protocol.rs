//! The synchronization protocol: pull, detect changes, commit, push, with one
//! bounded recovery from a rejected push.
//!
//! The protocol is a state machine. The caller runs the command of the
//! current stage, hands the outcome to [`sync_next`], and is told which stage
//! comes next, or that the run is over. The library never runs a command
//! itself, so every decision of the protocol is stated and checked here.

use vstd::prelude::*;
use vstd::string::*;
use crate::command::{Outcome, OutcomeView};
use crate::error::{ErrorView, GitboxError};
use crate::text::{is_substring, str_contains, views};

verus! {

/// One stage of the protocol; each stage runs one command.
#[derive(Clone, Copy, Debug, PartialEq, Eq, Structural)]
pub enum SyncStage {
    /// Ask for the remote's address.
    CheckRemote,
    /// Ask whether the default branch exists locally.
    CheckBranch,
    /// Create the default branch and switch to it.
    CreateBranch,
    /// Fetch and merge the remote's default branch.
    Pull,
    /// List the pending changes of the working tree.
    Status,
    /// Stage every change.
    Stage,
    /// Commit what was staged.
    Commit,
    /// Push the default branch and set its upstream.
    Push,
    /// After a rejected push: fetch and merge once more.
    MergePull,
    /// After that merge: push once more.
    RetryPush,
}

/// Something worth telling the user that is not a failure.
#[derive(Clone, Copy, Debug, PartialEq, Eq, Structural)]
pub enum SyncNotice {
    /// The default branch did not exist and was created.
    BranchCreated,
    /// The remote's changes were merged.
    Pulled,
    /// The remote has no such branch yet; the push will create it.
    UpstreamMissing,
    /// The pull failed for another reason; the run goes on regardless.
    PullWarning,
    /// There was nothing to commit.
    NothingToCommit,
    /// Local changes were committed.
    Committed,
    /// The push was rejected; the remote's history is merged before a retry.
    PushRejected,
    /// The push went through.
    Pushed,
    /// The push went through after the merge.
    MergedAndPushed,
}

/// What to do after a stage's command has finished.
#[derive(Debug)]
pub enum SyncStep {
    /// Run the command of `stage` next.
    Run { stage: SyncStage, notice: Option<SyncNotice> },
    /// The repository and its remote agree; nothing is left to do.
    Done(SyncNotice),
    /// The run is over and has failed.
    Failed(GitboxError),
}

/// The mathematical content of a [`SyncStep`].
pub enum SyncStepView {
    Run { stage: SyncStage, notice: Option<SyncNotice> },
    Done(SyncNotice),
    Failed(ErrorView),
}

impl View for SyncStep {
    type V = SyncStepView;

    open spec fn view(&self) -> SyncStepView {
        match *self {
            SyncStep::Run { stage, notice } => SyncStepView::Run { stage, notice },
            SyncStep::Done(notice) => SyncStepView::Done(notice),
            SyncStep::Failed(e) => SyncStepView::Failed(e@),
        }
    }
}

/// The diagnostic text of a failed pull says that the remote does not have
/// the branch yet.
pub open spec fn upstream_missing(stderr: Seq<char>) -> bool {
    is_substring("no upstream"@, stderr) || is_substring("couldn't find remote ref"@, stderr)
}

/// The diagnostic text of a failed push says that the push was no
/// fast-forward: the remote holds commits that the local branch lacks. `git`
/// marks such a push as `non-fast-forward`, or as `fetch first` where it has
/// not yet seen the remote's commits. A push that was refused for any other
/// reason, by a hook of the server for one, is not meant.
pub open spec fn push_rejected(stderr: Seq<char>) -> bool {
    is_substring("non-fast-forward"@, stderr) || is_substring("fetch first"@, stderr)
}

impl SyncStage {
    /// The stage that every run begins with.
    pub open spec fn first() -> SyncStage {
        SyncStage::CheckRemote
    }

    /// The position of a stage in the protocol. Every transition moves to a
    /// stage of higher rank.
    pub open spec fn rank(self) -> nat {
        match self {
            SyncStage::CheckRemote => 0,
            SyncStage::CheckBranch => 1,
            SyncStage::CreateBranch => 2,
            SyncStage::Pull => 3,
            SyncStage::Status => 4,
            SyncStage::Stage => 5,
            SyncStage::Commit => 6,
            SyncStage::Push => 7,
            SyncStage::MergePull => 8,
            SyncStage::RetryPush => 9,
        }
    }

    /// What is being attempted at a stage, for the report of a command that
    /// could not be started.
    pub open spec fn attempt(self) -> Seq<char> {
        match self {
            SyncStage::CheckRemote => "Failed to check remote origin"@,
            SyncStage::CheckBranch => "Failed to check current branch"@,
            SyncStage::CreateBranch => "Failed to create default branch"@,
            SyncStage::Pull => "Failed to execute git pull"@,
            SyncStage::Status => "Failed to execute git status"@,
            SyncStage::Stage => "Failed to execute git add"@,
            SyncStage::Commit => "Failed to execute git commit"@,
            SyncStage::Push => "Failed to execute git push"@,
            SyncStage::MergePull => "Failed to execute git pull for merge"@,
            SyncStage::RetryPush => "Failed to execute retry git push"@,
        }
    }

    /// The arguments handed to `git` at a stage, for the default branch
    /// `branch`.
    pub open spec fn command(self, branch: Seq<char>) -> Seq<Seq<char>> {
        match self {
            SyncStage::CheckRemote => seq!["remote"@, "get-url"@, "origin"@],
            SyncStage::CheckBranch => seq!["rev-parse"@, "--verify"@, branch],
            SyncStage::CreateBranch => seq!["checkout"@, "-b"@, branch],
            SyncStage::Pull | SyncStage::MergePull => seq![
                "pull"@,
                "--no-rebase"@,
                "--allow-unrelated-histories"@,
                "origin"@,
                branch,
            ],
            SyncStage::Status => seq!["status"@, "--porcelain"@],
            SyncStage::Stage => seq!["add"@, "."@],
            SyncStage::Commit => seq!["commit"@, "-m"@, "Update synced files"@],
            SyncStage::Push => seq!["push"@, "-u"@, "origin"@, branch],
            SyncStage::RetryPush => seq!["push"@, "origin"@, branch],
        }
    }
}

/// The protocol's transition: what follows when the command of `stage` ended
/// with `outcome`, in the repository `repo` whose default branch is `branch`.
pub open spec fn sync_next_spec(
    stage: SyncStage,
    outcome: OutcomeView,
    repo: Seq<char>,
    branch: Seq<char>,
) -> SyncStepView {
    match outcome {
        OutcomeView::NotStarted(why) => SyncStepView::Failed(
            ErrorView::Collaborator { context: stage.attempt(), detail: why },
        ),
        OutcomeView::Exited { success, stdout, stderr } => match stage {
            SyncStage::CheckRemote => if success {
                SyncStepView::Run { stage: SyncStage::CheckBranch, notice: None }
            } else {
                SyncStepView::Failed(ErrorView::NoRemote(repo))
            },
            SyncStage::CheckBranch => if success {
                SyncStepView::Run { stage: SyncStage::Pull, notice: None }
            } else {
                SyncStepView::Run { stage: SyncStage::CreateBranch, notice: None }
            },
            SyncStage::CreateBranch => if success {
                SyncStepView::Run { stage: SyncStage::Pull, notice: Some(SyncNotice::BranchCreated) }
            } else {
                SyncStepView::Failed(ErrorView::BranchCreateFailed { branch, detail: stderr })
            },
            SyncStage::Pull => SyncStepView::Run {
                stage: SyncStage::Status,
                notice: Some(
                    if success {
                        SyncNotice::Pulled
                    } else if upstream_missing(stderr) {
                        SyncNotice::UpstreamMissing
                    } else {
                        SyncNotice::PullWarning
                    },
                ),
            },
            SyncStage::Status => if !success {
                SyncStepView::Failed(
                    ErrorView::Collaborator {
                        context: "Failed to check git status"@,
                        detail: Seq::empty(),
                    },
                )
            } else if stdout.len() == 0 {
                SyncStepView::Run { stage: SyncStage::Push, notice: Some(SyncNotice::NothingToCommit) }
            } else {
                SyncStepView::Run { stage: SyncStage::Stage, notice: None }
            },
            SyncStage::Stage => if success {
                SyncStepView::Run { stage: SyncStage::Commit, notice: None }
            } else {
                SyncStepView::Failed(ErrorView::StageFailed(stderr))
            },
            SyncStage::Commit => if success {
                SyncStepView::Run { stage: SyncStage::Push, notice: Some(SyncNotice::Committed) }
            } else {
                SyncStepView::Failed(ErrorView::CommitFailed(stderr))
            },
            SyncStage::Push => if success {
                SyncStepView::Done(SyncNotice::Pushed)
            } else if push_rejected(stderr) {
                SyncStepView::Run {
                    stage: SyncStage::MergePull,
                    notice: Some(SyncNotice::PushRejected),
                }
            } else {
                SyncStepView::Failed(ErrorView::PushFailed(stderr))
            },
            SyncStage::MergePull => if success {
                SyncStepView::Run { stage: SyncStage::RetryPush, notice: None }
            } else {
                SyncStepView::Failed(ErrorView::MergeFailed(stderr))
            },
            SyncStage::RetryPush => if success {
                SyncStepView::Done(SyncNotice::MergedAndPushed)
            } else {
                SyncStepView::Failed(ErrorView::RetryPushFailed(stderr))
            },
        },
    }
}

/// The stage that every run begins with.
pub fn sync_first() -> (stage: SyncStage)
    ensures
        stage == SyncStage::first(),
{
    SyncStage::CheckRemote
}

/// The arguments to hand to `git` at `stage`.
pub fn sync_command(stage: SyncStage, branch: &str) -> (args: Vec<String>)
    ensures
        views(args@) == stage.command(branch@),
{
    let mut args: Vec<String> = Vec::new();
    match stage {
        SyncStage::CheckRemote => {
            args.push("remote".to_owned());
            args.push("get-url".to_owned());
            args.push("origin".to_owned());
        },
        SyncStage::CheckBranch => {
            args.push("rev-parse".to_owned());
            args.push("--verify".to_owned());
            args.push(branch.to_owned());
        },
        SyncStage::CreateBranch => {
            args.push("checkout".to_owned());
            args.push("-b".to_owned());
            args.push(branch.to_owned());
        },
        SyncStage::Pull | SyncStage::MergePull => {
            args.push("pull".to_owned());
            args.push("--no-rebase".to_owned());
            args.push("--allow-unrelated-histories".to_owned());
            args.push("origin".to_owned());
            args.push(branch.to_owned());
        },
        SyncStage::Status => {
            args.push("status".to_owned());
            args.push("--porcelain".to_owned());
        },
        SyncStage::Stage => {
            args.push("add".to_owned());
            args.push(".".to_owned());
        },
        SyncStage::Commit => {
            args.push("commit".to_owned());
            args.push("-m".to_owned());
            args.push("Update synced files".to_owned());
        },
        SyncStage::Push => {
            args.push("push".to_owned());
            args.push("-u".to_owned());
            args.push("origin".to_owned());
            args.push(branch.to_owned());
        },
        SyncStage::RetryPush => {
            args.push("push".to_owned());
            args.push("origin".to_owned());
            args.push(branch.to_owned());
        },
    }
    proof {
        assert(views(args@) =~= stage.command(branch@));
    }
    args
}

/// What is being attempted at `stage`, as a sentence for a failure report.
fn attempt_text(stage: SyncStage) -> (text: String)
    ensures
        text@ == stage.attempt(),
{
    match stage {
        SyncStage::CheckRemote => "Failed to check remote origin".to_owned(),
        SyncStage::CheckBranch => "Failed to check current branch".to_owned(),
        SyncStage::CreateBranch => "Failed to create default branch".to_owned(),
        SyncStage::Pull => "Failed to execute git pull".to_owned(),
        SyncStage::Status => "Failed to execute git status".to_owned(),
        SyncStage::Stage => "Failed to execute git add".to_owned(),
        SyncStage::Commit => "Failed to execute git commit".to_owned(),
        SyncStage::Push => "Failed to execute git push".to_owned(),
        SyncStage::MergePull => "Failed to execute git pull for merge".to_owned(),
        SyncStage::RetryPush => "Failed to execute retry git push".to_owned(),
    }
}

/// Decides what follows when the command of `stage` ended with `outcome`.
///
/// `repo_name` is the repository being synchronized and `branch` its default
/// branch. Diagnostic text from the command is carried into the failure
/// unchanged.
pub fn sync_next(stage: SyncStage, outcome: &Outcome, repo_name: &str, branch: &str) -> (step:
    SyncStep)
    ensures
        step@ == sync_next_spec(stage, outcome@, repo_name@, branch@),
{
    match outcome {
        Outcome::NotStarted(why) => SyncStep::Failed(
            GitboxError::Collaborator { context: attempt_text(stage), detail: why.clone() },
        ),
        Outcome::Exited { success, stdout, stderr } => {
            let success = *success;
            match stage {
                SyncStage::CheckRemote => if success {
                    SyncStep::Run { stage: SyncStage::CheckBranch, notice: None }
                } else {
                    SyncStep::Failed(GitboxError::NoRemote(repo_name.to_owned()))
                },
                SyncStage::CheckBranch => if success {
                    SyncStep::Run { stage: SyncStage::Pull, notice: None }
                } else {
                    SyncStep::Run { stage: SyncStage::CreateBranch, notice: None }
                },
                SyncStage::CreateBranch => if success {
                    SyncStep::Run { stage: SyncStage::Pull, notice: Some(SyncNotice::BranchCreated) }
                } else {
                    SyncStep::Failed(
                        GitboxError::BranchCreateFailed {
                            branch: branch.to_owned(),
                            detail: stderr.clone(),
                        },
                    )
                },
                SyncStage::Pull => {
                    let notice = if success {
                        SyncNotice::Pulled
                    } else if str_contains(stderr.as_str(), "no upstream") || str_contains(
                        stderr.as_str(),
                        "couldn't find remote ref",
                    ) {
                        SyncNotice::UpstreamMissing
                    } else {
                        SyncNotice::PullWarning
                    };
                    SyncStep::Run { stage: SyncStage::Status, notice: Some(notice) }
                },
                SyncStage::Status => if !success {
                    SyncStep::Failed(
                        GitboxError::Collaborator {
                            context: "Failed to check git status".to_owned(),
                            detail: String::new(),
                        },
                    )
                } else if stdout.as_str().unicode_len() == 0 {
                    SyncStep::Run { stage: SyncStage::Push, notice: Some(SyncNotice::NothingToCommit) }
                } else {
                    SyncStep::Run { stage: SyncStage::Stage, notice: None }
                },
                SyncStage::Stage => if success {
                    SyncStep::Run { stage: SyncStage::Commit, notice: None }
                } else {
                    SyncStep::Failed(GitboxError::StageFailed(stderr.clone()))
                },
                SyncStage::Commit => if success {
                    SyncStep::Run { stage: SyncStage::Push, notice: Some(SyncNotice::Committed) }
                } else {
                    SyncStep::Failed(GitboxError::CommitFailed(stderr.clone()))
                },
                SyncStage::Push => if success {
                    SyncStep::Done(SyncNotice::Pushed)
                } else if str_contains(stderr.as_str(), "non-fast-forward") || str_contains(
                    stderr.as_str(),
                    "fetch first",
                ) {
                    SyncStep::Run { stage: SyncStage::MergePull, notice: Some(SyncNotice::PushRejected) }
                } else {
                    SyncStep::Failed(GitboxError::PushFailed(stderr.clone()))
                },
                SyncStage::MergePull => if success {
                    SyncStep::Run { stage: SyncStage::RetryPush, notice: None }
                } else {
                    SyncStep::Failed(GitboxError::MergeFailed(stderr.clone()))
                },
                SyncStage::RetryPush => if success {
                    SyncStep::Done(SyncNotice::MergedAndPushed)
                } else {
                    SyncStep::Failed(GitboxError::RetryPushFailed(stderr.clone()))
                },
            }
        },
    }
}

/// The stages that a run goes through, beginning at `stage`, when its
/// commands end with `outcomes` in turn. The last stage listed is the one
/// that ended the run, or the one whose outcome is still awaited.
pub open spec fn sync_trace(
    stage: SyncStage,
    outcomes: Seq<OutcomeView>,
    repo: Seq<char>,
    branch: Seq<char>,
) -> Seq<SyncStage>
    decreases outcomes.len(),
{
    if outcomes.len() == 0 {
        seq![stage]
    } else {
        match sync_next_spec(stage, outcomes[0], repo, branch) {
            SyncStepView::Run { stage: next, .. } => seq![stage] + sync_trace(
                next,
                outcomes.drop_first(),
                repo,
                branch,
            ),
            _ => seq![stage],
        }
    }
}

/// How a run that begins at `stage` ends when its commands end with
/// `outcomes` in turn; `None` while the run still awaits an outcome.
pub open spec fn sync_result(
    stage: SyncStage,
    outcomes: Seq<OutcomeView>,
    repo: Seq<char>,
    branch: Seq<char>,
) -> Option<Result<SyncNotice, ErrorView>>
    decreases outcomes.len(),
{
    if outcomes.len() == 0 {
        None
    } else {
        match sync_next_spec(stage, outcomes[0], repo, branch) {
            SyncStepView::Run { stage: next, .. } => sync_result(
                next,
                outcomes.drop_first(),
                repo,
                branch,
            ),
            SyncStepView::Done(notice) => Some(Ok(notice)),
            SyncStepView::Failed(e) => Some(Err(e)),
        }
    }
}

/// A command that ran without any pending change to report.
pub open spec fn clean_status(outcome: OutcomeView) -> bool {
    outcome matches OutcomeView::Exited { success, stdout, .. } && success && stdout.len() == 0
}

/// A push that failed because it was no fast-forward.
pub open spec fn rejected(outcome: OutcomeView) -> bool {
    outcome matches OutcomeView::Exited { success, stderr, .. } && !success && push_rejected(stderr)
}

/// Every transition leads to a later stage: the protocol never goes back.
pub proof fn lemma_sync_step_advances(
    stage: SyncStage,
    outcome: OutcomeView,
    repo: Seq<char>,
    branch: Seq<char>,
)
    ensures
        sync_next_spec(stage, outcome, repo, branch) matches SyncStepView::Run { stage: next, .. }
            ==> stage.rank() < next.rank(),
{
}

/// A run's trace begins with its first stage, and each further entry is what
/// the transition gave for the entry and outcome before it. Where the
/// transition ended the run, the trace ends too, and the run's result is the
/// one that the transition gave.
pub proof fn lemma_sync_trace_step(
    stage: SyncStage,
    outcomes: Seq<OutcomeView>,
    repo: Seq<char>,
    branch: Seq<char>,
    i: int,
)
    requires
        0 <= i < sync_trace(stage, outcomes, repo, branch).len(),
    ensures
        sync_trace(stage, outcomes, repo, branch)[0] == stage,
        sync_trace(stage, outcomes, repo, branch).len() <= outcomes.len() + 1,
        i < outcomes.len() ==> (match sync_next_spec(
            sync_trace(stage, outcomes, repo, branch)[i],
            outcomes[i],
            repo,
            branch,
        ) {
            SyncStepView::Run { stage: next, .. } => {
                &&& i + 1 < sync_trace(stage, outcomes, repo, branch).len()
                &&& sync_trace(stage, outcomes, repo, branch)[i + 1] == next
            },
            SyncStepView::Done(notice) => {
                &&& sync_trace(stage, outcomes, repo, branch).len() == i + 1
                &&& sync_result(stage, outcomes, repo, branch) == Some(
                    Ok::<SyncNotice, ErrorView>(notice),
                )
            },
            SyncStepView::Failed(e) => {
                &&& sync_trace(stage, outcomes, repo, branch).len() == i + 1
                &&& sync_result(stage, outcomes, repo, branch) == Some(
                    Err::<SyncNotice, ErrorView>(e),
                )
            },
        }),
        i == outcomes.len() ==> {
            &&& sync_trace(stage, outcomes, repo, branch).len() == i + 1
            &&& sync_result(stage, outcomes, repo, branch) is None
        },
    decreases outcomes.len(),
{
    if outcomes.len() > 0 {
        match sync_next_spec(stage, outcomes[0], repo, branch) {
            SyncStepView::Run { stage: next, .. } => {
                let rest = outcomes.drop_first();
                let tail = sync_trace(next, rest, repo, branch);
                lemma_sync_trace_step(next, rest, repo, branch, 0);
                if i > 0 {
                    lemma_sync_trace_step(next, rest, repo, branch, i - 1);
                    assert(sync_trace(stage, outcomes, repo, branch)[i] == tail[i - 1]);
                    if i < outcomes.len() {
                        assert(rest[i - 1] == outcomes[i]);
                        if i + 1 < sync_trace(stage, outcomes, repo, branch).len() {
                            assert(sync_trace(stage, outcomes, repo, branch)[i + 1] == tail[i]);
                        }
                    }
                } else {
                    assert(sync_trace(stage, outcomes, repo, branch)[1] == tail[0]);
                }
            },
            _ => {},
        }
    }
}

/// Along a run the stages only ever move forward.
pub proof fn lemma_sync_trace_ascends(
    stage: SyncStage,
    outcomes: Seq<OutcomeView>,
    repo: Seq<char>,
    branch: Seq<char>,
    i: int,
    j: int,
)
    requires
        0 <= i < j < sync_trace(stage, outcomes, repo, branch).len(),
    ensures
        sync_trace(stage, outcomes, repo, branch)[i].rank() < sync_trace(
            stage,
            outcomes,
            repo,
            branch,
        )[j].rank(),
    decreases j - i,
{
    let trace = sync_trace(stage, outcomes, repo, branch);
    lemma_sync_trace_step(stage, outcomes, repo, branch, j - 1);
    lemma_sync_step_advances(trace[j - 1], outcomes[j - 1], repo, branch);
    if i < j - 1 {
        lemma_sync_trace_ascends(stage, outcomes, repo, branch, i, j - 1);
    }
}

/// Whatever the commands report, a run goes through each stage at most
/// once. In particular it commits at most once, and it merges and retries
/// the push at most once: there is no loop in the protocol.
pub proof fn lemma_sync_runs_each_stage_once(
    outcomes: Seq<OutcomeView>,
    repo: Seq<char>,
    branch: Seq<char>,
)
    ensures
        sync_trace(SyncStage::first(), outcomes, repo, branch).no_duplicates(),
        sync_trace(SyncStage::first(), outcomes, repo, branch).len() <= 10,
{
    let trace = sync_trace(SyncStage::first(), outcomes, repo, branch);
    assert forall|i: int, j: int| 0 <= i < trace.len() && 0 <= j < trace.len() && i != j implies trace[i]
        != trace[j] by {
        if i < j {
            lemma_sync_trace_ascends(SyncStage::first(), outcomes, repo, branch, i, j);
        } else {
            lemma_sync_trace_ascends(SyncStage::first(), outcomes, repo, branch, j, i);
        }
    }
    lemma_sync_trace_step(SyncStage::first(), outcomes, repo, branch, 0);
    if trace.len() > 10 {
        assert forall|k: int| 0 <= k < trace.len() implies (#[trigger] trace[k]).rank() >= k by {
            lemma_ranks_bound_positions(outcomes, repo, branch, k);
        }
        assert(trace[10].rank() >= 10);
    }
}

/// The stage at position `k` of a run has rank `k` at least.
proof fn lemma_ranks_bound_positions(
    outcomes: Seq<OutcomeView>,
    repo: Seq<char>,
    branch: Seq<char>,
    k: int,
)
    requires
        0 <= k < sync_trace(SyncStage::first(), outcomes, repo, branch).len(),
    ensures
        sync_trace(SyncStage::first(), outcomes, repo, branch)[k].rank() >= k,
    decreases k,
{
    if k > 0 {
        lemma_ranks_bound_positions(outcomes, repo, branch, k - 1);
        lemma_sync_trace_ascends(SyncStage::first(), outcomes, repo, branch, k - 1, k);
    }
}

/// Recovery from a rejected push is a single cycle. When the push is
/// rejected because the histories have diverged, the run merges the remote's
/// history; when that merge succeeds, it pushes again; and when that second
/// push fails, for whatever reason, the run is over and has failed with the
/// second push's diagnostic text. No run merges or retries more than once.
pub proof fn lemma_push_conflict_recovery(
    outcomes: Seq<OutcomeView>,
    repo: Seq<char>,
    branch: Seq<char>,
    i: int,
)
    requires
        0 <= i < sync_trace(SyncStage::first(), outcomes, repo, branch).len(),
        i < outcomes.len(),
    ensures
        ({
            let trace = sync_trace(SyncStage::first(), outcomes, repo, branch);
            let result = sync_result(SyncStage::first(), outcomes, repo, branch);
            &&& trace.no_duplicates()
            &&& trace[i] == SyncStage::Push && rejected(outcomes[i]) ==> {
                &&& i + 1 < trace.len()
                &&& trace[i + 1] == SyncStage::MergePull
            }
            &&& trace[i] == SyncStage::MergePull && outcomes[i].succeeded() ==> {
                &&& i + 1 < trace.len()
                &&& trace[i + 1] == SyncStage::RetryPush
            }
            &&& trace[i] == SyncStage::RetryPush ==> trace.len() == i + 1
            &&& trace[i] == SyncStage::RetryPush ==> (match outcomes[i] {
                OutcomeView::Exited { success, stderr, .. } => if success {
                    result == Some(Ok::<SyncNotice, ErrorView>(SyncNotice::MergedAndPushed))
                } else {
                    result == Some(Err::<SyncNotice, ErrorView>(ErrorView::RetryPushFailed(stderr)))
                },
                OutcomeView::NotStarted(_) => result is Some && result->0 is Err,
            })
        }),
{
    lemma_sync_runs_each_stage_once(outcomes, repo, branch);
    lemma_sync_trace_step(SyncStage::first(), outcomes, repo, branch, i);
}

/// A working tree without pending changes is never committed: when the
/// status command reports nothing, the run goes straight on to the push and
/// contains neither the staging nor the commit stage.
pub proof fn lemma_clean_tree_makes_no_commit(
    outcomes: Seq<OutcomeView>,
    repo: Seq<char>,
    branch: Seq<char>,
    i: int,
)
    requires
        0 <= i < sync_trace(SyncStage::first(), outcomes, repo, branch).len(),
        i < outcomes.len(),
        sync_trace(SyncStage::first(), outcomes, repo, branch)[i] == SyncStage::Status,
        clean_status(outcomes[i]),
    ensures
        sync_trace(SyncStage::first(), outcomes, repo, branch)[i + 1] == SyncStage::Push,
        !sync_trace(SyncStage::first(), outcomes, repo, branch).contains(SyncStage::Stage),
        !sync_trace(SyncStage::first(), outcomes, repo, branch).contains(SyncStage::Commit),
{
    let trace = sync_trace(SyncStage::first(), outcomes, repo, branch);
    lemma_sync_trace_step(SyncStage::first(), outcomes, repo, branch, i);
    assert forall|k: int| 0 <= k < trace.len() implies trace[k] != SyncStage::Stage && trace[k]
        != SyncStage::Commit by {
        if k < i {
            lemma_sync_trace_ascends(SyncStage::first(), outcomes, repo, branch, k, i);
        } else if k > i + 1 {
            lemma_sync_trace_ascends(SyncStage::first(), outcomes, repo, branch, i + 1, k);
        }
    }
}

/// A run over a working tree without pending changes never fails for want
/// of something to commit: whatever else happens in it, it does not end with
/// a failure of staging or committing.
pub proof fn lemma_clean_tree_never_fails_to_commit(
    outcomes: Seq<OutcomeView>,
    repo: Seq<char>,
    branch: Seq<char>,
    i: int,
)
    requires
        0 <= i < sync_trace(SyncStage::first(), outcomes, repo, branch).len(),
        i < outcomes.len(),
        sync_trace(SyncStage::first(), outcomes, repo, branch)[i] == SyncStage::Status,
        clean_status(outcomes[i]),
    ensures
        !(sync_result(SyncStage::first(), outcomes, repo, branch) matches Some(Err(e))
            && e.kind() == crate::error::ErrorKind::CommitFailed),
{
    let trace = sync_trace(SyncStage::first(), outcomes, repo, branch);
    let last = trace.len() - 1;
    lemma_clean_tree_makes_no_commit(outcomes, repo, branch, i);
    lemma_sync_trace_step(SyncStage::first(), outcomes, repo, branch, last);
    assert(trace.contains(trace[last]));
}

/// When every command succeeds and the working tree has no pending change,
/// the run is over after five commands, has made no commit, and has
/// succeeded.
pub proof fn lemma_quiet_run_succeeds(
    outcomes: Seq<OutcomeView>,
    repo: Seq<char>,
    branch: Seq<char>,
)
    requires
        outcomes.len() >= 5,
        forall|i: int| 0 <= i < 5 ==> (#[trigger] outcomes[i]).succeeded(),
        clean_status(outcomes[3]),
    ensures
        sync_trace(SyncStage::first(), outcomes, repo, branch) == seq![
            SyncStage::CheckRemote,
            SyncStage::CheckBranch,
            SyncStage::Pull,
            SyncStage::Status,
            SyncStage::Push,
        ],
        sync_result(SyncStage::first(), outcomes, repo, branch) == Some(
            Ok::<SyncNotice, ErrorView>(SyncNotice::Pushed),
        ),
{
    let trace = sync_trace(SyncStage::first(), outcomes, repo, branch);
    assert(outcomes[0].succeeded());
    assert(outcomes[1].succeeded());
    assert(outcomes[2].succeeded());
    assert(outcomes[4].succeeded());
    lemma_sync_trace_step(SyncStage::first(), outcomes, repo, branch, 0);
    lemma_sync_trace_step(SyncStage::first(), outcomes, repo, branch, 1);
    lemma_sync_trace_step(SyncStage::first(), outcomes, repo, branch, 2);
    lemma_sync_trace_step(SyncStage::first(), outcomes, repo, branch, 3);
    lemma_sync_trace_step(SyncStage::first(), outcomes, repo, branch, 4);
    assert(trace =~= seq![
        SyncStage::CheckRemote,
        SyncStage::CheckBranch,
        SyncStage::Pull,
        SyncStage::Status,
        SyncStage::Push,
    ]);
}

/// When every command succeeds and the working tree has pending changes,
/// the run stages and commits them exactly once before it pushes, and
/// succeeds.
pub proof fn lemma_changed_run_commits_once(
    outcomes: Seq<OutcomeView>,
    repo: Seq<char>,
    branch: Seq<char>,
)
    requires
        outcomes.len() >= 7,
        forall|i: int| 0 <= i < 7 ==> (#[trigger] outcomes[i]).succeeded(),
        !clean_status(outcomes[3]),
    ensures
        sync_trace(SyncStage::first(), outcomes, repo, branch) == seq![
            SyncStage::CheckRemote,
            SyncStage::CheckBranch,
            SyncStage::Pull,
            SyncStage::Status,
            SyncStage::Stage,
            SyncStage::Commit,
            SyncStage::Push,
        ],
        sync_result(SyncStage::first(), outcomes, repo, branch) == Some(
            Ok::<SyncNotice, ErrorView>(SyncNotice::Pushed),
        ),
{
    let trace = sync_trace(SyncStage::first(), outcomes, repo, branch);
    assert(outcomes[0].succeeded());
    assert(outcomes[1].succeeded());
    assert(outcomes[2].succeeded());
    assert(outcomes[3].succeeded());
    assert(outcomes[4].succeeded());
    assert(outcomes[5].succeeded());
    assert(outcomes[6].succeeded());
    lemma_sync_trace_step(SyncStage::first(), outcomes, repo, branch, 0);
    lemma_sync_trace_step(SyncStage::first(), outcomes, repo, branch, 1);
    lemma_sync_trace_step(SyncStage::first(), outcomes, repo, branch, 2);
    lemma_sync_trace_step(SyncStage::first(), outcomes, repo, branch, 3);
    lemma_sync_trace_step(SyncStage::first(), outcomes, repo, branch, 4);
    lemma_sync_trace_step(SyncStage::first(), outcomes, repo, branch, 5);
    lemma_sync_trace_step(SyncStage::first(), outcomes, repo, branch, 6);
    assert(trace =~= seq![
        SyncStage::CheckRemote,
        SyncStage::CheckBranch,
        SyncStage::Pull,
        SyncStage::Status,
        SyncStage::Stage,
        SyncStage::Commit,
        SyncStage::Push,
    ]);
}

} // verus!
