//! The failures that the library reports.

use vstd::prelude::*;
use vstd::string::*;
use crate::text::{concat2, concat3, join, joined_with, views};

verus! {

/// The broad class of a failure.
#[derive(Clone, Copy, Debug, PartialEq, Eq, Structural)]
pub enum ErrorKind {
    /// A repository name that is blank or holds a path separator.
    InvalidInput,
    /// The thing to be created is already there.
    AlreadyExists,
    /// A repository or a tracked file is absent.
    NotFound,
    /// A partial repository name fits more than one repository.
    AmbiguousName,
    /// A metadata record that no known encoding can read.
    MetadataCorrupt,
    /// No link could be made between a user's path and its tracked copy.
    LinkCreationFailed,
    /// The repository has no remote to synchronize with.
    NoRemoteConfigured,
    /// The default branch was absent and could not be created.
    BranchCreateFailed,
    /// Staging or committing local changes failed.
    CommitFailed,
    /// A push to the remote failed, the one retry of a synchronization
    /// included.
    PushFailed,
    /// A collaborator could not be run or failed in some other way.
    Collaborator,
}

/// A failure, with the data needed to explain it.
#[derive(Debug)]
pub enum GitboxError {
    /// The repository name is empty or only white space.
    EmptyName,
    /// The repository name holds `/` or `\`.
    SeparatorInName,
    /// A repository of this name is already on disk.
    RepositoryExists(String),
    /// The file is already recorded in the directory's metadata.
    AlreadyTracked,
    /// A file of this name already sits where the link would go.
    DestinationExists(String),
    /// No known repository fits the partial name.
    NoMatch { wanted: String, known: Vec<String> },
    /// The named repository has no directory on disk.
    RepositoryMissing(String),
    /// The file or directory to adopt is not on disk.
    PathMissing(String),
    /// The repository holds no tracked copy of this name.
    TrackedCopyMissing { file: String, repository: String },
    /// Several known repositories fit the partial name.
    Ambiguous { wanted: String, candidates: Vec<String> },
    /// The metadata record is in neither the canonical nor the legacy encoding.
    MetadataCorrupt,
    /// The symbolic link could not be made.
    LinkFailed(String),
    /// The named repository has no remote.
    NoRemote(String),
    /// The default branch could not be created.
    BranchCreateFailed { branch: String, detail: String },
    /// Staging the changes failed.
    StageFailed(String),
    /// Creating the commit failed.
    CommitFailed(String),
    /// The push failed for a reason other than diverged histories.
    PushFailed(String),
    /// The push that publishes a newly tracked file failed.
    PublishFailed(String),
    /// Merging the remote's history after a rejected push failed.
    MergeFailed(String),
    /// The push after the merge failed too.
    RetryPushFailed(String),
    /// A collaborator failed; `context` says what was being attempted.
    Collaborator { context: String, detail: String },
}

/// The mathematical content of a [`GitboxError`].
pub enum ErrorView {
    EmptyName,
    SeparatorInName,
    RepositoryExists(Seq<char>),
    AlreadyTracked,
    DestinationExists(Seq<char>),
    NoMatch { wanted: Seq<char>, known: Seq<Seq<char>> },
    RepositoryMissing(Seq<char>),
    PathMissing(Seq<char>),
    TrackedCopyMissing { file: Seq<char>, repository: Seq<char> },
    Ambiguous { wanted: Seq<char>, candidates: Seq<Seq<char>> },
    MetadataCorrupt,
    LinkFailed(Seq<char>),
    NoRemote(Seq<char>),
    BranchCreateFailed { branch: Seq<char>, detail: Seq<char> },
    StageFailed(Seq<char>),
    CommitFailed(Seq<char>),
    PushFailed(Seq<char>),
    PublishFailed(Seq<char>),
    MergeFailed(Seq<char>),
    RetryPushFailed(Seq<char>),
    Collaborator { context: Seq<char>, detail: Seq<char> },
}

impl View for GitboxError {
    type V = ErrorView;

    open spec fn view(&self) -> ErrorView {
        match *self {
            GitboxError::EmptyName => ErrorView::EmptyName,
            GitboxError::SeparatorInName => ErrorView::SeparatorInName,
            GitboxError::RepositoryExists(name) => ErrorView::RepositoryExists(name@),
            GitboxError::AlreadyTracked => ErrorView::AlreadyTracked,
            GitboxError::DestinationExists(file) => ErrorView::DestinationExists(file@),
            GitboxError::NoMatch { wanted, known } => ErrorView::NoMatch {
                wanted: wanted@,
                known: views(known@),
            },
            GitboxError::RepositoryMissing(name) => ErrorView::RepositoryMissing(name@),
            GitboxError::PathMissing(path) => ErrorView::PathMissing(path@),
            GitboxError::TrackedCopyMissing { file, repository } => ErrorView::TrackedCopyMissing {
                file: file@,
                repository: repository@,
            },
            GitboxError::Ambiguous { wanted, candidates } => ErrorView::Ambiguous {
                wanted: wanted@,
                candidates: views(candidates@),
            },
            GitboxError::MetadataCorrupt => ErrorView::MetadataCorrupt,
            GitboxError::LinkFailed(detail) => ErrorView::LinkFailed(detail@),
            GitboxError::NoRemote(name) => ErrorView::NoRemote(name@),
            GitboxError::BranchCreateFailed { branch, detail } => ErrorView::BranchCreateFailed {
                branch: branch@,
                detail: detail@,
            },
            GitboxError::StageFailed(detail) => ErrorView::StageFailed(detail@),
            GitboxError::CommitFailed(detail) => ErrorView::CommitFailed(detail@),
            GitboxError::PushFailed(detail) => ErrorView::PushFailed(detail@),
            GitboxError::PublishFailed(detail) => ErrorView::PublishFailed(detail@),
            GitboxError::MergeFailed(detail) => ErrorView::MergeFailed(detail@),
            GitboxError::RetryPushFailed(detail) => ErrorView::RetryPushFailed(detail@),
            GitboxError::Collaborator { context, detail } => ErrorView::Collaborator {
                context: context@,
                detail: detail@,
            },
        }
    }
}

impl ErrorView {
    /// The class that a failure belongs to.
    pub open spec fn kind(self) -> ErrorKind {
        match self {
            ErrorView::EmptyName | ErrorView::SeparatorInName => ErrorKind::InvalidInput,
            ErrorView::RepositoryExists(_) | ErrorView::AlreadyTracked | ErrorView::DestinationExists(
                _,
            ) => ErrorKind::AlreadyExists,
            ErrorView::NoMatch { .. } | ErrorView::RepositoryMissing(_) | ErrorView::PathMissing(_)
            | ErrorView::TrackedCopyMissing { .. } => ErrorKind::NotFound,
            ErrorView::Ambiguous { .. } => ErrorKind::AmbiguousName,
            ErrorView::MetadataCorrupt => ErrorKind::MetadataCorrupt,
            ErrorView::LinkFailed(_) => ErrorKind::LinkCreationFailed,
            ErrorView::NoRemote(_) => ErrorKind::NoRemoteConfigured,
            ErrorView::BranchCreateFailed { .. } => ErrorKind::BranchCreateFailed,
            ErrorView::StageFailed(_) | ErrorView::CommitFailed(_) => ErrorKind::CommitFailed,
            ErrorView::PushFailed(_) | ErrorView::PublishFailed(_) | ErrorView::MergeFailed(_)
            | ErrorView::RetryPushFailed(_) => ErrorKind::PushFailed,
            ErrorView::Collaborator { .. } => ErrorKind::Collaborator,
        }
    }

    /// The sentence shown to the user for a failure. Diagnostic text that
    /// came from a collaborator appears in it unchanged.
    pub open spec fn message(self) -> Seq<char> {
        match self {
            ErrorView::EmptyName => "Repository name cannot be empty"@,
            ErrorView::SeparatorInName => "Repository name cannot contain path separators"@,
            ErrorView::RepositoryExists(name) => "Repository '"@ + name + "' already exists"@,
            ErrorView::AlreadyTracked => "File is already synced to a repository"@,
            ErrorView::DestinationExists(file) => "File '"@ + file
                + "' already exists in current directory"@,
            ErrorView::NoMatch { wanted, known } => "No repository found matching '"@ + wanted
                + "'. Available repositories: "@ + (if known.len() == 0 {
                "none"@
            } else {
                joined_with(known, ", "@)
            }),
            ErrorView::RepositoryMissing(name) => "Repository '"@ + name + "' does not exist"@,
            ErrorView::PathMissing(path) => "File or directory does not exist: "@ + path,
            ErrorView::TrackedCopyMissing { file, repository } => "File '"@ + file
                + "' not found in repository '"@ + repository + "'"@,
            ErrorView::Ambiguous { wanted, candidates } => "Multiple repositories match '"@ + wanted
                + "': "@ + joined_with(candidates, ", "@) + ". Please be more specific."@,
            ErrorView::MetadataCorrupt => "Failed to parse .gitbox file as JSON or TOML"@,
            ErrorView::LinkFailed(detail) => "Failed to create symlink: "@ + detail,
            ErrorView::NoRemote(name) => "Repository '"@ + name
                + "' has no remote origin configured. Please run 'gitbox add-repo "@ + name
                + "' first or manually configure the remote."@,
            ErrorView::BranchCreateFailed { branch, detail } => "Failed to create branch '"@
                + branch + "': "@ + detail,
            ErrorView::StageFailed(detail) => "Failed to add changes: "@ + detail,
            ErrorView::CommitFailed(detail) => "Failed to commit changes: "@ + detail,
            ErrorView::PushFailed(detail) => "Failed to push to GitHub: "@ + detail,
            ErrorView::PublishFailed(detail) => "Failed to push to remote: "@ + detail,
            ErrorView::MergeFailed(detail) => "Failed to pull and merge: "@ + detail,
            ErrorView::RetryPushFailed(detail) => "Failed to push after merge: "@ + detail,
            ErrorView::Collaborator { context, detail } => if detail.len() == 0 {
                context
            } else {
                context + ": "@ + detail
            },
        }
    }
}

impl GitboxError {
    /// The class that this failure belongs to.
    pub fn kind(&self) -> (kind: ErrorKind)
        ensures
            kind == self@.kind(),
    {
        match self {
            GitboxError::EmptyName | GitboxError::SeparatorInName => ErrorKind::InvalidInput,
            GitboxError::RepositoryExists(_) | GitboxError::AlreadyTracked
            | GitboxError::DestinationExists(_) => ErrorKind::AlreadyExists,
            GitboxError::NoMatch { .. } | GitboxError::RepositoryMissing(_)
            | GitboxError::PathMissing(_) | GitboxError::TrackedCopyMissing { .. } =>
                ErrorKind::NotFound,
            GitboxError::Ambiguous { .. } => ErrorKind::AmbiguousName,
            GitboxError::MetadataCorrupt => ErrorKind::MetadataCorrupt,
            GitboxError::LinkFailed(_) => ErrorKind::LinkCreationFailed,
            GitboxError::NoRemote(_) => ErrorKind::NoRemoteConfigured,
            GitboxError::BranchCreateFailed { .. } => ErrorKind::BranchCreateFailed,
            GitboxError::StageFailed(_) | GitboxError::CommitFailed(_) => ErrorKind::CommitFailed,
            GitboxError::PushFailed(_) | GitboxError::PublishFailed(_)
            | GitboxError::MergeFailed(_) | GitboxError::RetryPushFailed(_) => ErrorKind::PushFailed,
            GitboxError::Collaborator { .. } => ErrorKind::Collaborator,
        }
    }

    /// The sentence shown to the user for this failure.
    pub fn message(&self) -> (text: String)
        ensures
            text@ == self@.message(),
    {
        match self {
            GitboxError::EmptyName => String::from_str("Repository name cannot be empty"),
            GitboxError::SeparatorInName => String::from_str(
                "Repository name cannot contain path separators",
            ),
            GitboxError::RepositoryExists(name) => concat3(
                "Repository '",
                name.as_str(),
                "' already exists",
            ),
            GitboxError::AlreadyTracked => String::from_str(
                "File is already synced to a repository",
            ),
            GitboxError::DestinationExists(file) => concat3(
                "File '",
                file.as_str(),
                "' already exists in current directory",
            ),
            GitboxError::NoMatch { wanted, known } => {
                let mut text = concat3(
                    "No repository found matching '",
                    wanted.as_str(),
                    "'. Available repositories: ",
                );
                if known.len() == 0 {
                    text.append("none");
                } else {
                    let list = join(known, ", ");
                    text.append(list.as_str());
                }
                text
            },
            GitboxError::RepositoryMissing(name) => concat3(
                "Repository '",
                name.as_str(),
                "' does not exist",
            ),
            GitboxError::PathMissing(path) => concat2(
                "File or directory does not exist: ",
                path.as_str(),
            ),
            GitboxError::TrackedCopyMissing { file, repository } => {
                let mut text = concat3("File '", file.as_str(), "' not found in repository '");
                text.append(repository.as_str());
                text.append("'");
                text
            },
            GitboxError::Ambiguous { wanted, candidates } => {
                let mut text = concat3("Multiple repositories match '", wanted.as_str(), "': ");
                let list = join(candidates, ", ");
                text.append(list.as_str());
                text.append(". Please be more specific.");
                text
            },
            GitboxError::MetadataCorrupt => String::from_str(
                "Failed to parse .gitbox file as JSON or TOML",
            ),
            GitboxError::LinkFailed(detail) => concat2("Failed to create symlink: ", detail.as_str()),
            GitboxError::NoRemote(name) => {
                let mut text = concat3(
                    "Repository '",
                    name.as_str(),
                    "' has no remote origin configured. Please run 'gitbox add-repo ",
                );
                text.append(name.as_str());
                text.append("' first or manually configure the remote.");
                text
            },
            GitboxError::BranchCreateFailed { branch, detail } => {
                let mut text = concat3("Failed to create branch '", branch.as_str(), "': ");
                text.append(detail.as_str());
                text
            },
            GitboxError::StageFailed(detail) => concat2("Failed to add changes: ", detail.as_str()),
            GitboxError::CommitFailed(detail) => concat2(
                "Failed to commit changes: ",
                detail.as_str(),
            ),
            GitboxError::PushFailed(detail) => concat2("Failed to push to GitHub: ", detail.as_str()),
            GitboxError::PublishFailed(detail) => concat2(
                "Failed to push to remote: ",
                detail.as_str(),
            ),
            GitboxError::MergeFailed(detail) => concat2(
                "Failed to pull and merge: ",
                detail.as_str(),
            ),
            GitboxError::RetryPushFailed(detail) => concat2(
                "Failed to push after merge: ",
                detail.as_str(),
            ),
            GitboxError::Collaborator { context, detail } => {
                if detail.as_str().unicode_len() == 0 {
                    context.clone()
                } else {
                    concat3(context.as_str(), ": ", detail.as_str())
                }
            },
        }
    }
}

} // verus!
