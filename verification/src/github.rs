//! The remote host, as seen through its command-line client `gh`.
//!
//! The caller runs `gh` with the arguments given here and hands back what
//! the command reported. The functions of this module turn that report into
//! a typed answer, so that nothing outside has to read diagnostic text.

use vstd::prelude::*;
use vstd::string::*;
use crate::command::{Outcome, OutcomeView};
use crate::error::{ErrorView, GitboxError};
use crate::text::{concat3, is_substring, str_contains, str_trim, trimmed, views};

verus! {

/// A verified session with the remote host.
#[derive(Clone, Copy, Debug)]
pub struct GitHubClient;

/// The answer of the remote host to a request to create a repository.
#[derive(Debug)]
pub enum RemoteCreation {
    /// The repository was created; its address has yet to be asked for.
    Created,
    /// A repository of that name exists already.
    AlreadyExists,
    /// The request failed.
    Failed(GitboxError),
}

/// The mathematical content of a [`RemoteCreation`].
pub enum RemoteCreationView {
    Created,
    AlreadyExists,
    Failed(ErrorView),
}

impl View for RemoteCreation {
    type V = RemoteCreationView;

    open spec fn view(&self) -> RemoteCreationView {
        match *self {
            RemoteCreation::Created => RemoteCreationView::Created,
            RemoteCreation::AlreadyExists => RemoteCreationView::AlreadyExists,
            RemoteCreation::Failed(e) => RemoteCreationView::Failed(e@),
        }
    }
}

/// The diagnostic text of a refused creation says that the name is taken.
pub open spec fn name_taken(stderr: Seq<char>) -> bool {
    is_substring("Name already exists"@, stderr) || is_substring("already exists"@, stderr)
}

/// The address for cloning the repository `repo` of the user `user` over SSH.
pub open spec fn ssh_url_of(user: Seq<char>, repo: Seq<char>) -> Seq<char> {
    "git@github.com:"@ + user + "/"@ + repo + ".git"@
}

/// The answer when a command of the client did not report success: `launch`
/// tells what was being attempted if the command could not be started, and
/// `refusal` if it ran and failed.
pub open spec fn client_failure(outcome: OutcomeView, launch: Seq<char>, refusal: Seq<char>) -> ErrorView {
    match outcome {
        OutcomeView::NotStarted(why) => ErrorView::Collaborator { context: launch, detail: why },
        OutcomeView::Exited { stderr, .. } => ErrorView::Collaborator {
            context: refusal,
            detail: stderr,
        },
    }
}

/// What [`GitHubClient::new`] makes of the session check.
pub open spec fn session_spec(status: OutcomeView) -> Option<ErrorView> {
    if status.succeeded() {
        None
    } else {
        Some(
            client_failure(
                status,
                "Failed to run 'gh' command. Please install GitHub CLI (gh) and authenticate with 'gh auth login'"@,
                "GitHub CLI authentication failed"@,
            ),
        )
    }
}

/// What [`GitHubClient::create_private_repo`] makes of the creation request.
pub open spec fn creation_spec(create: OutcomeView) -> RemoteCreationView {
    match create {
        OutcomeView::Exited { success, stderr, .. } => if success {
            RemoteCreationView::Created
        } else if name_taken(stderr) {
            RemoteCreationView::AlreadyExists
        } else {
            RemoteCreationView::Failed(
                ErrorView::Collaborator {
                    context: "Failed to create GitHub repository"@,
                    detail: stderr,
                },
            )
        },
        OutcomeView::NotStarted(why) => RemoteCreationView::Failed(
            ErrorView::Collaborator {
                context: "Failed to create GitHub repository with gh CLI"@,
                detail: why,
            },
        ),
    }
}

/// The trimmed standard output of a command that succeeded, or the failure
/// described by `launch` and `refusal`.
pub open spec fn answer_spec(outcome: OutcomeView, launch: Seq<char>, refusal: Seq<char>) -> Result<
    Seq<char>,
    ErrorView,
> {
    match outcome {
        OutcomeView::Exited { success, stdout, .. } => if success {
            Ok(trimmed(stdout))
        } else {
            Err(client_failure(outcome, launch, refusal))
        },
        OutcomeView::NotStarted(_) => Err(client_failure(outcome, launch, refusal)),
    }
}

/// The view of a textual answer.
pub open spec fn answer_view(r: Result<String, GitboxError>) -> Result<Seq<char>, ErrorView> {
    match r {
        Ok(text) => Ok(text@),
        Err(e) => Err(e@),
    }
}

/// The trimmed standard output of a command that succeeded, or the failure
/// described by `launch` and `refusal`.
fn answer(outcome: &Outcome, launch: &str, refusal: &str) -> (r: Result<String, GitboxError>)
    ensures
        answer_view(r) == answer_spec(outcome@, launch@, refusal@),
{
    match outcome {
        Outcome::Exited { success, stdout, stderr } => if *success {
            Ok(str_trim(stdout.as_str()).to_owned())
        } else {
            Err(GitboxError::Collaborator { context: refusal.to_owned(), detail: stderr.clone() })
        },
        Outcome::NotStarted(why) => Err(
            GitboxError::Collaborator { context: launch.to_owned(), detail: why.clone() },
        ),
    }
}

impl GitHubClient {
    /// The arguments that ask `gh` whether the user is signed in.
    pub fn session_args() -> (args: Vec<String>)
        ensures
            views(args@) == seq!["auth"@, "status"@],
    {
        let mut args: Vec<String> = Vec::new();
        args.push("auth".to_owned());
        args.push("status".to_owned());
        proof {
            assert(views(args@) =~= seq!["auth"@, "status"@]);
        }
        args
    }

    /// The arguments that ask `gh` to create the private repository
    /// `repo_name` without cloning it.
    pub fn create_args(repo_name: &str) -> (args: Vec<String>)
        ensures
            views(args@) == seq!["repo"@, "create"@, repo_name@, "--private"@, "--clone=false"@],
    {
        let mut args: Vec<String> = Vec::new();
        args.push("repo".to_owned());
        args.push("create".to_owned());
        args.push(repo_name.to_owned());
        args.push("--private".to_owned());
        args.push("--clone=false".to_owned());
        proof {
            assert(views(args@) =~= seq![
                "repo"@,
                "create"@,
                repo_name@,
                "--private"@,
                "--clone=false"@,
            ]);
        }
        args
    }

    /// The arguments that ask `gh` for the SSH address of `repo_name`.
    pub fn clone_url_args(repo_name: &str) -> (args: Vec<String>)
        ensures
            views(args@) == seq![
                "repo"@,
                "view"@,
                repo_name@,
                "--json"@,
                "sshUrl"@,
                "-q"@,
                ".sshUrl"@,
            ],
    {
        let mut args: Vec<String> = Vec::new();
        args.push("repo".to_owned());
        args.push("view".to_owned());
        args.push(repo_name.to_owned());
        args.push("--json".to_owned());
        args.push("sshUrl".to_owned());
        args.push("-q".to_owned());
        args.push(".sshUrl".to_owned());
        proof {
            assert(views(args@) =~= seq![
                "repo"@,
                "view"@,
                repo_name@,
                "--json"@,
                "sshUrl"@,
                "-q"@,
                ".sshUrl"@,
            ]);
        }
        args
    }

    /// The arguments that ask `gh` to show the repository `repo_name` of
    /// `owner`.
    pub fn exists_args(owner: &str, repo_name: &str) -> (args: Vec<String>)
        ensures
            views(args@) == seq!["repo"@, "view"@, owner@ + "/"@ + repo_name@],
    {
        let mut args: Vec<String> = Vec::new();
        args.push("repo".to_owned());
        args.push("view".to_owned());
        args.push(concat3(owner, "/", repo_name));
        proof {
            assert(views(args@) =~= seq!["repo"@, "view"@, owner@ + "/"@ + repo_name@]);
        }
        args
    }

    /// The arguments that ask `gh` for the login name of the user.
    pub fn user_args() -> (args: Vec<String>)
        ensures
            views(args@) == seq!["api"@, "user"@, "--jq"@, ".login"@],
    {
        let mut args: Vec<String> = Vec::new();
        args.push("api".to_owned());
        args.push("user".to_owned());
        args.push("--jq".to_owned());
        args.push(".login".to_owned());
        proof {
            assert(views(args@) =~= seq!["api"@, "user"@, "--jq"@, ".login"@]);
        }
        args
    }

    /// A session, given what the session check reported. There is a session
    /// exactly when the check ran and succeeded.
    pub fn new(status: &Outcome) -> (r: Result<GitHubClient, GitboxError>)
        ensures
            match r {
                Ok(_) => session_spec(status@) is None,
                Err(e) => session_spec(status@) == Some(e@),
            },
    {
        match status {
            Outcome::Exited { success, stdout, stderr } => if *success {
                Ok(GitHubClient)
            } else {
                Err(
                    GitboxError::Collaborator {
                        context: "GitHub CLI authentication failed".to_owned(),
                        detail: stderr.clone(),
                    },
                )
            },
            Outcome::NotStarted(why) => Err(
                GitboxError::Collaborator {
                    context: "Failed to run 'gh' command. Please install GitHub CLI (gh) and authenticate with 'gh auth login'".to_owned(),
                    detail: why.clone(),
                },
            ),
        }
    }

    /// The host's answer to the creation request, given what the command
    /// reported. A refusal that names the repository as existing is told
    /// apart from every other failure.
    pub fn create_private_repo(&self, create: &Outcome) -> (answer: RemoteCreation)
        ensures
            answer@ == creation_spec(create@),
    {
        match create {
            Outcome::Exited { success, stdout, stderr } => if *success {
                RemoteCreation::Created
            } else if str_contains(stderr.as_str(), "Name already exists") || str_contains(
                stderr.as_str(),
                "already exists",
            ) {
                RemoteCreation::AlreadyExists
            } else {
                RemoteCreation::Failed(
                    GitboxError::Collaborator {
                        context: "Failed to create GitHub repository".to_owned(),
                        detail: stderr.clone(),
                    },
                )
            },
            Outcome::NotStarted(why) => RemoteCreation::Failed(
                GitboxError::Collaborator {
                    context: "Failed to create GitHub repository with gh CLI".to_owned(),
                    detail: why.clone(),
                },
            ),
        }
    }

    /// The address of the repository, given what the query for it reported.
    pub fn clone_url(&self, view: &Outcome) -> (r: Result<String, GitboxError>)
        ensures
            answer_view(r) == answer_spec(
                view@,
                "Failed to get repository clone URL"@,
                "Failed to get repository clone URL"@,
            ),
    {
        answer(view, "Failed to get repository clone URL", "Failed to get repository clone URL")
    }

    /// Whether the repository exists, given what the query for it reported.
    pub fn repo_exists(&self, view: &Outcome) -> (r: Result<bool, GitboxError>)
        ensures
            match view@ {
                OutcomeView::Exited { success, .. } => r == Ok::<bool, GitboxError>(success),
                OutcomeView::NotStarted(why) => r is Err && r->Err_0@ == (ErrorView::Collaborator {
                    context: "Failed to check repository existence with gh CLI"@,
                    detail: why,
                }),
            },
    {
        match view {
            Outcome::Exited { success, .. } => Ok(*success),
            Outcome::NotStarted(why) => Err(
                GitboxError::Collaborator {
                    context: "Failed to check repository existence with gh CLI".to_owned(),
                    detail: why.clone(),
                },
            ),
        }
    }

    /// The login name of the user, given what the query for it reported.
    pub fn get_authenticated_user(&self, user: &Outcome) -> (r: Result<String, GitboxError>)
        ensures
            answer_view(r) == answer_spec(
                user@,
                "Failed to get authenticated user with gh CLI"@,
                "Failed to get authenticated user"@,
            ),
    {
        answer(user, "Failed to get authenticated user with gh CLI", "Failed to get authenticated user")
    }

    /// The address for cloning the repository `repo_name` of `user` over SSH.
    pub fn ssh_url(user: &str, repo_name: &str) -> (url: String)
        ensures
            url@ == ssh_url_of(user@, repo_name@),
    {
        let mut url = String::from_str("git@github.com:");
        url.append(user);
        url.append("/");
        url.append(repo_name);
        url.append(".git");
        url
    }
}

} // verus!
