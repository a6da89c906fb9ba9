//! Creating a repository: a local working tree with its first commit, a
//! remote to go with it, and a first exchange between the two.
//!
//! Like synchronization, creation is a state machine that the caller drives:
//! it performs the work of the current stage, reports the outcome, and is
//! told what comes next.

use vstd::prelude::*;
use vstd::string::*;
use crate::command::{Outcome, OutcomeView};
use crate::error::{ErrorView, GitboxError};
use crate::github::{name_taken, ssh_url_of, GitHubClient};
use crate::text::{has_char, str_contains, str_trim, trimmed, views};

verus! {

/// One stage of creation. From the moment the remote's address is known the
/// stage carries it along.
#[derive(Debug)]
pub enum CreateStage {
    /// Look whether the repository's directory is already there. The look is
    /// reported as a success when the place is free, and as a failure when
    /// it is taken.
    CheckDirectory,
    /// Create the repository's directory.
    MakeDirectory,
    /// Initialize a working tree in it.
    InitRepository,
    /// Write the repository's own, empty metadata record.
    WriteMetadata,
    /// Commit the record as the first commit, create the default branch at
    /// that commit and make it the active branch.
    InitialCommit,
    /// Check that there is a session with the remote host.
    CheckSession,
    /// Ask the remote host to create the repository.
    CreateRemote,
    /// Ask the remote host for the address of the repository just created.
    FetchCloneUrl,
    /// The repository existed: ask the remote host who the user is.
    ResolveIdentity,
    /// Register the remote under the name `origin`.
    AttachRemote(String),
    /// Fetch and merge what the remote already holds.
    Pull(String),
    /// The pull failed: push the first commit.
    Push(String),
}

/// The mathematical content of a [`CreateStage`].
pub enum CreateStageView {
    CheckDirectory,
    MakeDirectory,
    InitRepository,
    WriteMetadata,
    InitialCommit,
    CheckSession,
    CreateRemote,
    FetchCloneUrl,
    ResolveIdentity,
    AttachRemote(Seq<char>),
    Pull(Seq<char>),
    Push(Seq<char>),
}

impl View for CreateStage {
    type V = CreateStageView;

    open spec fn view(&self) -> CreateStageView {
        match *self {
            CreateStage::CheckDirectory => CreateStageView::CheckDirectory,
            CreateStage::MakeDirectory => CreateStageView::MakeDirectory,
            CreateStage::InitRepository => CreateStageView::InitRepository,
            CreateStage::WriteMetadata => CreateStageView::WriteMetadata,
            CreateStage::InitialCommit => CreateStageView::InitialCommit,
            CreateStage::CheckSession => CreateStageView::CheckSession,
            CreateStage::CreateRemote => CreateStageView::CreateRemote,
            CreateStage::FetchCloneUrl => CreateStageView::FetchCloneUrl,
            CreateStage::ResolveIdentity => CreateStageView::ResolveIdentity,
            CreateStage::AttachRemote(url) => CreateStageView::AttachRemote(url@),
            CreateStage::Pull(url) => CreateStageView::Pull(url@),
            CreateStage::Push(url) => CreateStageView::Push(url@),
        }
    }
}

/// What to do after the work of a stage has been attempted.
#[derive(Debug)]
pub enum CreateStep {
    /// Do the work of this stage next.
    Run(CreateStage),
    /// The repository exists locally and remotely. `clone_url` is the
    /// remote's address, to be recorded in the summary; `pulled` tells
    /// whether the remote's content was merged (else the first commit was
    /// pushed).
    Done { clone_url: String, pulled: bool },
    /// Creation has failed. What was made so far is left as it is.
    Failed(GitboxError),
}

/// The mathematical content of a [`CreateStep`].
pub enum CreateStepView {
    Run(CreateStageView),
    Done { clone_url: Seq<char>, pulled: bool },
    Failed(ErrorView),
}

impl View for CreateStep {
    type V = CreateStepView;

    open spec fn view(&self) -> CreateStepView {
        match *self {
            CreateStep::Run(stage) => CreateStepView::Run(stage@),
            CreateStep::Done { clone_url, pulled } => CreateStepView::Done {
                clone_url: clone_url@,
                pulled,
            },
            CreateStep::Failed(e) => CreateStepView::Failed(e@),
        }
    }
}

/// What is wrong with a repository name, if anything: it must not be blank,
/// and it must not hold a path separator, which would place the repository
/// outside the repository root.
pub open spec fn name_problem(name: Seq<char>) -> Option<ErrorView> {
    if trimmed(name).len() == 0 {
        Some(ErrorView::EmptyName)
    } else if name.contains('/') || name.contains('\\') {
        Some(ErrorView::SeparatorInName)
    } else {
        None
    }
}

/// How creation begins for the name `name`, when `exists` tells whether the
/// repository's directory is already there.
pub open spec fn create_begin_spec(name: Seq<char>, exists: bool) -> Result<
    CreateStageView,
    ErrorView,
> {
    match name_problem(name) {
        Some(problem) => Err(problem),
        None => if exists {
            Err(ErrorView::RepositoryExists(name))
        } else {
            Ok(CreateStageView::MakeDirectory)
        },
    }
}

impl CreateStageView {
    /// The stage that every creation begins with.
    pub open spec fn first() -> CreateStageView {
        CreateStageView::CheckDirectory
    }
}

impl CreateStageView {
    /// The position of a stage in the course of creation.
    pub open spec fn rank(self) -> nat {
        match self {
            CreateStageView::CheckDirectory => 0,
            CreateStageView::MakeDirectory => 1,
            CreateStageView::InitRepository => 2,
            CreateStageView::WriteMetadata => 3,
            CreateStageView::InitialCommit => 4,
            CreateStageView::CheckSession => 5,
            CreateStageView::CreateRemote => 6,
            CreateStageView::FetchCloneUrl => 7,
            CreateStageView::ResolveIdentity => 8,
            CreateStageView::AttachRemote(_) => 9,
            CreateStageView::Pull(_) => 10,
            CreateStageView::Push(_) => 11,
        }
    }

    /// What is being attempted at a stage, for the report of work that could
    /// not be started.
    pub open spec fn launch(self) -> Seq<char> {
        match self {
            CreateStageView::CheckDirectory => "Failed to check repository directory"@,
            CreateStageView::MakeDirectory => "Failed to create repository directory"@,
            CreateStageView::InitRepository => "Failed to initialize git repository"@,
            CreateStageView::WriteMetadata => "Failed to write .gitbox file"@,
            CreateStageView::InitialCommit => "Failed to create initial commit"@,
            CreateStageView::CheckSession =>
                "Failed to run 'gh' command. Please install GitHub CLI (gh) and authenticate with 'gh auth login'"@,
            CreateStageView::CreateRemote => "Failed to create GitHub repository with gh CLI"@,
            CreateStageView::FetchCloneUrl => "Failed to get repository clone URL"@,
            CreateStageView::ResolveIdentity => "Failed to get authenticated user with gh CLI"@,
            CreateStageView::AttachRemote(_) => "Failed to add remote origin"@,
            CreateStageView::Pull(_) => "Failed to execute git pull"@,
            CreateStageView::Push(_) => "Failed to execute git push"@,
        }
    }

    /// What is being attempted at a stage, for the report of work that was
    /// started and failed.
    pub open spec fn refusal(self) -> Seq<char> {
        match self {
            CreateStageView::CheckSession => "GitHub CLI authentication failed"@,
            CreateStageView::CreateRemote => "Failed to create GitHub repository"@,
            CreateStageView::ResolveIdentity => "Failed to get authenticated user"@,
            _ => self.launch(),
        }
    }

    /// The stage that follows when a stage without a decision of its own
    /// succeeded.
    pub open spec fn successor(self) -> CreateStageView {
        match self {
            CreateStageView::CheckDirectory => CreateStageView::MakeDirectory,
            CreateStageView::MakeDirectory => CreateStageView::InitRepository,
            CreateStageView::InitRepository => CreateStageView::WriteMetadata,
            CreateStageView::WriteMetadata => CreateStageView::InitialCommit,
            CreateStageView::InitialCommit => CreateStageView::CheckSession,
            CreateStageView::CheckSession => CreateStageView::CreateRemote,
            CreateStageView::CreateRemote => CreateStageView::FetchCloneUrl,
            CreateStageView::AttachRemote(url) => CreateStageView::Pull(url),
            _ => self,
        }
    }
}

/// The failure reported when the work of `stage` ended with `outcome`
/// and that is fatal.
pub open spec fn create_failure(stage: CreateStageView, outcome: OutcomeView) -> ErrorView {
    match outcome {
        OutcomeView::NotStarted(why) => ErrorView::Collaborator {
            context: stage.launch(),
            detail: why,
        },
        OutcomeView::Exited { stderr, .. } => match stage {
            CreateStageView::Push(_) => ErrorView::PushFailed(stderr),
            _ => ErrorView::Collaborator { context: stage.refusal(), detail: stderr },
        },
    }
}

/// The transition of creation for a name that is in order: what follows
/// when the work of `stage` ended with `outcome`.
pub open spec fn create_step_spec(stage: CreateStageView, outcome: OutcomeView, repo: Seq<char>) -> CreateStepView {
    match outcome {
        OutcomeView::NotStarted(_) => CreateStepView::Failed(create_failure(stage, outcome)),
        OutcomeView::Exited { success, stdout, stderr } => match stage {
            CreateStageView::CheckDirectory => if success {
                CreateStepView::Run(CreateStageView::MakeDirectory)
            } else {
                CreateStepView::Failed(ErrorView::RepositoryExists(repo))
            },
            CreateStageView::CreateRemote => if success {
                CreateStepView::Run(CreateStageView::FetchCloneUrl)
            } else if name_taken(stderr) {
                CreateStepView::Run(CreateStageView::ResolveIdentity)
            } else {
                CreateStepView::Failed(create_failure(stage, outcome))
            },
            CreateStageView::FetchCloneUrl => if success {
                CreateStepView::Run(CreateStageView::AttachRemote(trimmed(stdout)))
            } else {
                CreateStepView::Failed(create_failure(stage, outcome))
            },
            CreateStageView::ResolveIdentity => if success {
                CreateStepView::Run(CreateStageView::AttachRemote(ssh_url_of(trimmed(stdout), repo)))
            } else {
                CreateStepView::Failed(create_failure(stage, outcome))
            },
            CreateStageView::Pull(url) => if success {
                CreateStepView::Done { clone_url: url, pulled: true }
            } else {
                CreateStepView::Run(CreateStageView::Push(url))
            },
            CreateStageView::Push(url) => if success {
                CreateStepView::Done { clone_url: url, pulled: false }
            } else {
                CreateStepView::Failed(create_failure(stage, outcome))
            },
            _ => if success {
                CreateStepView::Run(stage.successor())
            } else {
                CreateStepView::Failed(create_failure(stage, outcome))
            },
        },
    }
}

/// The transition of creation: what follows when the work of `stage` ended
/// with `outcome`, for the repository named `repo`. A name that is not in
/// order ends the creation at whatever stage it is met, before anything else
/// is looked at; at the first stage that is before anything was made.
pub open spec fn create_next_spec(stage: CreateStageView, outcome: OutcomeView, repo: Seq<char>) -> CreateStepView {
    match name_problem(repo) {
        Some(problem) => CreateStepView::Failed(problem),
        None => create_step_spec(stage, outcome, repo),
    }
}

/// The arguments handed to `git` for the pull of a new repository.
pub open spec fn first_pull_command(branch: Seq<char>) -> Seq<Seq<char>> {
    seq!["pull"@, "origin"@, branch, "--allow-unrelated-histories"@]
}

/// The arguments handed to `git` for the push of a new repository.
pub open spec fn first_push_command(branch: Seq<char>) -> Seq<Seq<char>> {
    seq!["push"@, "-u"@, "origin"@, branch]
}

/// The name of the reference that stands for the branch `branch`.
pub open spec fn branch_ref_of(branch: Seq<char>) -> Seq<char> {
    "refs/heads/"@ + branch
}

/// The stage that every creation begins with.
pub fn create_first() -> (stage: CreateStage)
    ensures
        stage@ == CreateStageView::first(),
{
    CreateStage::CheckDirectory
}

/// Checks a repository name: it must not be blank and must not hold a path
/// separator. The empty name is blank.
pub fn validate_name(repo_name: &str) -> (r: Result<(), GitboxError>)
    ensures
        match r {
            Ok(_) => name_problem(repo_name@) is None,
            Err(e) => name_problem(repo_name@) == Some(e@),
        },
        repo_name@.len() == 0 ==> name_problem(repo_name@) == Some(ErrorView::EmptyName),
        repo_name@.contains('/') || repo_name@.contains('\\') ==> name_problem(repo_name@)
            is Some,
{
    if str_trim(repo_name).unicode_len() == 0 {
        Err(GitboxError::EmptyName)
    } else if has_char(repo_name, '/') || has_char(repo_name, '\\') {
        Err(GitboxError::SeparatorInName)
    } else {
        Ok(())
    }
}

/// Begins the creation of the repository `repo_name`. `exists` tells whether
/// its directory is already on disk.
pub fn create_begin(repo_name: &str, exists: bool) -> (r: Result<CreateStage, GitboxError>)
    ensures
        match r {
            Ok(stage) => create_begin_spec(repo_name@, exists) == Ok::<CreateStageView, ErrorView>(
                stage@,
            ),
            Err(e) => create_begin_spec(repo_name@, exists) == Err::<CreateStageView, ErrorView>(
                e@,
            ),
        },
{
    match validate_name(repo_name) {
        Err(e) => Err(e),
        Ok(_) => if exists {
            Err(GitboxError::RepositoryExists(repo_name.to_owned()))
        } else {
            Ok(CreateStage::MakeDirectory)
        },
    }
}

/// What is being attempted at `stage`, for work that could not be started.
fn launch_text(stage: &CreateStage) -> (text: String)
    ensures
        text@ == stage@.launch(),
{
    match stage {
        CreateStage::CheckDirectory => "Failed to check repository directory".to_owned(),
        CreateStage::MakeDirectory => "Failed to create repository directory".to_owned(),
        CreateStage::InitRepository => "Failed to initialize git repository".to_owned(),
        CreateStage::WriteMetadata => "Failed to write .gitbox file".to_owned(),
        CreateStage::InitialCommit => "Failed to create initial commit".to_owned(),
        CreateStage::CheckSession =>
            "Failed to run 'gh' command. Please install GitHub CLI (gh) and authenticate with 'gh auth login'".to_owned(),
        CreateStage::CreateRemote => "Failed to create GitHub repository with gh CLI".to_owned(),
        CreateStage::FetchCloneUrl => "Failed to get repository clone URL".to_owned(),
        CreateStage::ResolveIdentity => "Failed to get authenticated user with gh CLI".to_owned(),
        CreateStage::AttachRemote(_) => "Failed to add remote origin".to_owned(),
        CreateStage::Pull(_) => "Failed to execute git pull".to_owned(),
        CreateStage::Push(_) => "Failed to execute git push".to_owned(),
    }
}

/// What is being attempted at `stage`, for work that was started and failed.
fn refusal_text(stage: &CreateStage) -> (text: String)
    ensures
        text@ == stage@.refusal(),
{
    match stage {
        CreateStage::CheckSession => "GitHub CLI authentication failed".to_owned(),
        CreateStage::CreateRemote => "Failed to create GitHub repository".to_owned(),
        CreateStage::ResolveIdentity => "Failed to get authenticated user".to_owned(),
        _ => launch_text(stage),
    }
}

/// The failure to report when the work of `stage` ended with `outcome`.
fn failure_of(stage: &CreateStage, outcome: &Outcome) -> (e: GitboxError)
    ensures
        e@ == create_failure(stage@, outcome@),
{
    match outcome {
        Outcome::NotStarted(why) => GitboxError::Collaborator {
            context: launch_text(stage),
            detail: why.clone(),
        },
        Outcome::Exited { success, stdout, stderr } => match stage {
            CreateStage::Push(_) => GitboxError::PushFailed(stderr.clone()),
            _ => GitboxError::Collaborator { context: refusal_text(stage), detail: stderr.clone() },
        },
    }
}

/// Decides what follows when the work of `stage` ended with `outcome`.
///
/// The name is checked first, at every stage: a blank name and a name with a
/// path separator end the creation at once. Work that is no command (the
/// look at the directory, creating it, initializing the tree, writing the
/// record, the first commit, registering the remote) is reported as a
/// command that exited: with success, or without and with the reason as its
/// diagnostic text.
pub fn create_next(stage: CreateStage, outcome: &Outcome, repo_name: &str) -> (step: CreateStep)
    ensures
        step@ == create_next_spec(stage@, outcome@, repo_name@),
        repo_name@.len() == 0 ==> step@ == CreateStepView::Failed(ErrorView::EmptyName),
        repo_name@.contains('/') || repo_name@.contains('\\') ==> step@ is Failed && (step@->Failed_0
            == ErrorView::EmptyName || step@->Failed_0 == ErrorView::SeparatorInName),
{
    match validate_name(repo_name) {
        Err(e) => {
            return CreateStep::Failed(e);
        },
        Ok(_) => {},
    }
    match outcome {
        Outcome::NotStarted(_) => CreateStep::Failed(failure_of(&stage, outcome)),
        Outcome::Exited { success, stdout, stderr } => {
            if !*success {
                match stage {
                    CreateStage::CheckDirectory => CreateStep::Failed(
                        GitboxError::RepositoryExists(repo_name.to_owned()),
                    ),
                    CreateStage::CreateRemote => {
                        if str_contains(stderr.as_str(), "Name already exists") || str_contains(
                            stderr.as_str(),
                            "already exists",
                        ) {
                            CreateStep::Run(CreateStage::ResolveIdentity)
                        } else {
                            CreateStep::Failed(failure_of(&stage, outcome))
                        }
                    },
                    CreateStage::Pull(url) => CreateStep::Run(CreateStage::Push(url)),
                    _ => CreateStep::Failed(failure_of(&stage, outcome)),
                }
            } else {
                match stage {
                    CreateStage::CheckDirectory => CreateStep::Run(CreateStage::MakeDirectory),
                    CreateStage::MakeDirectory => CreateStep::Run(CreateStage::InitRepository),
                    CreateStage::InitRepository => CreateStep::Run(CreateStage::WriteMetadata),
                    CreateStage::WriteMetadata => CreateStep::Run(CreateStage::InitialCommit),
                    CreateStage::InitialCommit => CreateStep::Run(CreateStage::CheckSession),
                    CreateStage::CheckSession => CreateStep::Run(CreateStage::CreateRemote),
                    CreateStage::CreateRemote => CreateStep::Run(CreateStage::FetchCloneUrl),
                    CreateStage::FetchCloneUrl => CreateStep::Run(
                        CreateStage::AttachRemote(str_trim(stdout.as_str()).to_owned()),
                    ),
                    CreateStage::ResolveIdentity => CreateStep::Run(
                        CreateStage::AttachRemote(
                            GitHubClient::ssh_url(str_trim(stdout.as_str()), repo_name),
                        ),
                    ),
                    CreateStage::AttachRemote(url) => CreateStep::Run(CreateStage::Pull(url)),
                    CreateStage::Pull(url) => CreateStep::Done { clone_url: url, pulled: true },
                    CreateStage::Push(url) => CreateStep::Done { clone_url: url, pulled: false },
                }
            }
        },
    }
}

/// The arguments to hand to `git` for the pull of a new repository.
pub fn first_pull_args(branch: &str) -> (args: Vec<String>)
    ensures
        views(args@) == first_pull_command(branch@),
{
    let mut args: Vec<String> = Vec::new();
    args.push("pull".to_owned());
    args.push("origin".to_owned());
    args.push(branch.to_owned());
    args.push("--allow-unrelated-histories".to_owned());
    proof {
        assert(views(args@) =~= first_pull_command(branch@));
    }
    args
}

/// The arguments to hand to `git` for the push of a new repository.
pub fn first_push_args(branch: &str) -> (args: Vec<String>)
    ensures
        views(args@) == first_push_command(branch@),
{
    let mut args: Vec<String> = Vec::new();
    args.push("push".to_owned());
    args.push("-u".to_owned());
    args.push("origin".to_owned());
    args.push(branch.to_owned());
    proof {
        assert(views(args@) =~= first_push_command(branch@));
    }
    args
}

/// The name of the reference that stands for the branch `branch`.
pub fn branch_ref(branch: &str) -> (name: String)
    ensures
        name@ == branch_ref_of(branch@),
{
    crate::text::concat2("refs/heads/", branch)
}

/// Creation never goes back to an earlier stage.
pub proof fn lemma_create_step_advances(stage: CreateStageView, outcome: OutcomeView, repo: Seq<char>)
    ensures
        create_next_spec(stage, outcome, repo) matches CreateStepView::Run(next) ==> stage.rank()
            < next.rank(),
{
}

/// A name that is not in order ends the creation at the first stage, whatever
/// is on disk: nothing has been made by then. A name that is in order meets
/// a directory that is already there with a refusal, and a free place with
/// the making of the directory; this is what [`create_begin`] decides too.
pub proof fn lemma_creation_begins_with_the_checks(name: Seq<char>, look: OutcomeView)
    requires
        look is Exited,
    ensures
        name_problem(name) matches Some(problem) ==> create_next_spec(
            CreateStageView::first(),
            look,
            name,
        ) == CreateStepView::Failed(problem),
        match create_begin_spec(name, !look.succeeded()) {
            Ok(stage) => create_next_spec(CreateStageView::first(), look, name)
                == CreateStepView::Run(stage),
            Err(e) => create_next_spec(CreateStageView::first(), look, name)
                == CreateStepView::Failed(e),
        },
{
}

/// A remote that exists already is no failure: the user's identity is asked
/// for, and the address is put together from it and the repository's name.
pub proof fn lemma_existing_remote_is_adopted(
    stdout: Seq<char>,
    stderr: Seq<char>,
    user: OutcomeView,
    repo: Seq<char>,
)
    requires
        name_problem(repo) is None,
        name_taken(stderr),
        user.succeeded(),
    ensures
        create_next_spec(
            CreateStageView::CreateRemote,
            OutcomeView::Exited { success: false, stdout, stderr },
            repo,
        ) == CreateStepView::Run(CreateStageView::ResolveIdentity),
        create_next_spec(CreateStageView::ResolveIdentity, user, repo) == CreateStepView::Run(
            CreateStageView::AttachRemote(ssh_url_of(trimmed(user->stdout), repo)),
        ),
{
}

/// The address that creation ends with is the address that was registered
/// as the remote: a failed pull leads to the push of the first commit, and
/// only a failed push fails the creation, with the push's diagnostic text.
pub proof fn lemma_first_exchange(url: Seq<char>, pull: OutcomeView, push: OutcomeView, repo: Seq<char>)
    requires
        name_problem(repo) is None,
        pull is Exited,
        push is Exited,
    ensures
        create_next_spec(
            CreateStageView::AttachRemote(url),
            OutcomeView::Exited { success: true, stdout: Seq::empty(), stderr: Seq::empty() },
            repo,
        ) == CreateStepView::Run(CreateStageView::Pull(url)),
        pull.succeeded() ==> create_next_spec(CreateStageView::Pull(url), pull, repo) == (
        CreateStepView::Done { clone_url: url, pulled: true }),
        !pull.succeeded() ==> create_next_spec(CreateStageView::Pull(url), pull, repo)
            == CreateStepView::Run(CreateStageView::Push(url)),
        push.succeeded() ==> create_next_spec(CreateStageView::Push(url), push, repo) == (
        CreateStepView::Done { clone_url: url, pulled: false }),
        !push.succeeded() ==> create_next_spec(CreateStageView::Push(url), push, repo)
            == CreateStepView::Failed(ErrorView::PushFailed(push->stderr)),
{
}

} // verus!
