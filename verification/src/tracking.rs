//! Adopting a file into a repository, and bringing a tracked copy from a
//! repository into a directory.
//!
//! A tracked file is recorded twice: in the record of the directory where
//! the user works with it, and in the record of the repository that holds
//! the copy. The two records are independent; each gets an entry of its own.

use vstd::prelude::*;
use crate::command::{Outcome, OutcomeView};
use crate::config::Config;
use crate::error::{ErrorView, GitboxError};
use crate::metadata::{FileInfoView, GitboxMetadata, MetadataView};
use crate::paths::{file_name_of, join_path, path_file_name, path_join};
use crate::text::{concat2, views};

verus! {

/// Where the tracked copy named `name` goes inside the repository at
/// `repo_path`: into its `files` directory.
pub open spec fn tracked_path_of(repo_path: Seq<char>, name: Seq<char>) -> Seq<char> {
    path_join(path_join(repo_path, "files"@), name)
}

/// Whether `original` can be adopted, and where its copy would go.
pub open spec fn plan_tracking_spec(
    config: crate::config::ConfigView,
    local: MetadataView,
    repo: Seq<char>,
    original: Seq<char>,
) -> Result<Seq<char>, ErrorView> {
    if local.files.dom().contains(original) {
        Err(ErrorView::AlreadyTracked)
    } else {
        match path_file_name(original) {
            None => Err(
                ErrorView::Collaborator { context: "Failed to get file name"@, detail: Seq::empty() },
            ),
            Some(name) => Ok(tracked_path_of(path_join(config.repos_dir, repo), name)),
        }
    }
}

/// The view of a planning result.
pub open spec fn plan_view(r: Result<String, GitboxError>) -> Result<Seq<char>, ErrorView> {
    match r {
        Ok(path) => Ok(path@),
        Err(e) => Err(e@),
    }
}

/// The message of the commit that adds the file `name`.
pub open spec fn add_message_of(name: Seq<char>) -> Seq<char> {
    "Add file: "@ + name
}

/// Checks what must be on disk before a path is adopted: the repository,
/// then the path itself.
pub fn check_adoptable(repo_exists: bool, path_exists: bool, repo_name: &str, file_path: &str) -> (r:
    Result<(), GitboxError>)
    ensures
        match r {
            Ok(_) => repo_exists && path_exists,
            Err(e) => e@ == (if !repo_exists {
                ErrorView::RepositoryMissing(repo_name@)
            } else {
                ErrorView::PathMissing(file_path@)
            }) && !(repo_exists && path_exists),
        },
{
    if !repo_exists {
        Err(GitboxError::RepositoryMissing(repo_name.to_owned()))
    } else if !path_exists {
        Err(GitboxError::PathMissing(file_path.to_owned()))
    } else {
        Ok(())
    }
}

/// Decides where the tracked copy of `original_path` goes in the repository
/// `repo_name`. A path that the directory's record already holds is refused.
pub fn plan_tracking(config: &Config, local: &GitboxMetadata, repo_name: &str, original_path: &str) -> (r:
    Result<String, GitboxError>)
    ensures
        plan_view(r) == plan_tracking_spec(config@, local@, repo_name@, original_path@),
{
    if local.get_file(original_path).is_some() {
        return Err(GitboxError::AlreadyTracked);
    }
    match file_name_of(original_path) {
        None => Err(
            GitboxError::Collaborator {
                context: "Failed to get file name".to_owned(),
                detail: String::new(),
            },
        ),
        Some(name) => {
            let files = config.get_files_path(repo_name);
            Ok(join_path(files.as_str(), name.as_str()))
        },
    }
}

/// Records a newly tracked file in both records: in the record of the
/// user's directory, which is thereby associated with the repository, and in
/// the repository's own record. Returns the two identifiers.
pub fn record_tracking(
    local: &mut GitboxMetadata,
    repository: &mut GitboxMetadata,
    repo_name: &str,
    original_path: &str,
    tracked_path: &str,
    is_directory: bool,
) -> (ids: (String, String))
    ensures
        final(local)@ == (MetadataView {
            files: old(local)@.files.insert(
                original_path@,
                FileInfoView {
                    id: ids.0@,
                    original_path: original_path@,
                    synced_path: tracked_path@,
                    is_directory,
                },
            ),
            repo_name: Some(repo_name@),
        }),
        !old(local)@.holds_id(ids.0@),
        !old(repository)@.holds_id(ids.1@),
        final(repository)@ == old(repository)@.with_file(
            original_path@,
            FileInfoView {
                id: ids.1@,
                original_path: original_path@,
                synced_path: tracked_path@,
                is_directory,
            },
        ),
{
    let local_id = local.add_file(original_path, tracked_path, is_directory);
    local.repo_name = Some(repo_name.to_owned());
    let repo_id = repository.add_file(original_path, tracked_path, is_directory);
    (local_id, repo_id)
}

/// The message of the commit that adds the file `name`.
pub fn add_message(name: &str) -> (message: String)
    ensures
        message@ == add_message_of(name@),
{
    concat2("Add file: ", name)
}

/// The arguments handed to `git` to publish a newly tracked file.
pub fn publish_args(branch: &str) -> (args: Vec<String>)
    ensures
        views(args@) == seq!["push"@, "origin"@, branch@],
{
    let mut args: Vec<String> = Vec::new();
    args.push("push".to_owned());
    args.push("origin".to_owned());
    args.push(branch.to_owned());
    proof {
        assert(views(args@) =~= seq!["push"@, "origin"@, branch@]);
    }
    args
}

/// The failure of the push that publishes a newly tracked file: the
/// diagnostic text of a push that ran and failed, unchanged, or the reason
/// why the push could not be started.
pub open spec fn publish_failure(push: OutcomeView) -> ErrorView {
    match push {
        OutcomeView::NotStarted(why) => ErrorView::Collaborator {
            context: "Failed to execute git push"@,
            detail: why,
        },
        OutcomeView::Exited { stderr, .. } => ErrorView::PublishFailed(stderr),
    }
}

/// Whether publishing a newly tracked file went through, given what the
/// push reported. The push is made once; its failure ends the adoption.
pub fn publish_result(push: &Outcome) -> (r: Result<(), GitboxError>)
    ensures
        r is Ok <==> push@.succeeded(),
        r matches Err(e) ==> e@ == publish_failure(push@),
{
    match push {
        Outcome::NotStarted(why) => Err(
            GitboxError::Collaborator {
                context: "Failed to execute git push".to_owned(),
                detail: why.clone(),
            },
        ),
        Outcome::Exited { success, stdout, stderr } => if *success {
            Ok(())
        } else {
            Err(GitboxError::PublishFailed(stderr.clone()))
        },
    }
}

/// One stage of the adoption of a path into a repository.
#[derive(Clone, Copy, Debug, PartialEq, Eq, Structural)]
pub enum AdoptStage {
    /// Look whether the repository and the path are on disk.
    Check,
    /// Decide where the tracked copy goes, given the path in its canonical
    /// form and the record of the user's directory.
    Plan,
    /// Publish the commit that holds the new copy.
    Publish,
}

/// What the caller has learned in the course of an adoption. Each stage
/// reads its own part and ignores the rest, so what is not known yet may
/// hold anything.
#[derive(Debug)]
pub struct Adoption<'a> {
    /// The repository that is to hold the copy.
    pub repo_name: &'a str,
    /// The path as the user gave it.
    pub file_path: &'a str,
    /// Whether the repository's directory is on disk; read at the check.
    pub repo_exists: bool,
    /// Whether the path is on disk; read at the check.
    pub path_exists: bool,
    /// The path in its canonical form; read when the copy is planned.
    pub original_path: &'a str,
    /// The record of the user's directory; read when the copy is planned.
    pub local: &'a GitboxMetadata,
    /// What the push reported; read when the copy is published.
    pub push: &'a Outcome,
    /// The number of entries that the repository's `files` directory has
    /// after the adoption; read when the copy is published.
    pub file_count: usize,
}

/// The mathematical content of an [`Adoption`].
pub struct AdoptionView {
    pub repo_name: Seq<char>,
    pub file_path: Seq<char>,
    pub repo_exists: bool,
    pub path_exists: bool,
    pub original_path: Seq<char>,
    pub local: MetadataView,
    pub push: OutcomeView,
    pub file_count: usize,
}

impl<'a> View for Adoption<'a> {
    type V = AdoptionView;

    open spec fn view(&self) -> AdoptionView {
        AdoptionView {
            repo_name: self.repo_name@,
            file_path: self.file_path@,
            repo_exists: self.repo_exists,
            path_exists: self.path_exists,
            original_path: self.original_path@,
            local: self.local@,
            push: self.push@,
            file_count: self.file_count,
        }
    }
}

/// What to do next in the course of an adoption.
#[derive(Debug)]
pub enum AdoptStep {
    /// Both are on disk. Bring the path into its canonical form, read the
    /// record of the user's directory, and go on at [`AdoptStage::Plan`].
    Resolve,
    /// Link the path to this place inside the repository, record the file in
    /// both records, commit and push; then go on at [`AdoptStage::Publish`].
    Track(String),
    /// The file is tracked and published.
    Done,
    /// The adoption has failed. Up to the plan nothing was linked, recorded,
    /// committed or pushed.
    Failed(GitboxError),
}

/// The mathematical content of an [`AdoptStep`].
pub enum AdoptStepView {
    Resolve,
    Track(Seq<char>),
    Done,
    Failed(ErrorView),
}

impl View for AdoptStep {
    type V = AdoptStepView;

    open spec fn view(&self) -> AdoptStepView {
        match *self {
            AdoptStep::Resolve => AdoptStepView::Resolve,
            AdoptStep::Track(path) => AdoptStepView::Track(path@),
            AdoptStep::Done => AdoptStepView::Done,
            AdoptStep::Failed(e) => AdoptStepView::Failed(e@),
        }
    }
}

/// The transition of an adoption: what follows at `stage`, given what the
/// caller has learned.
///
/// A repository or a path that is not on disk ends the adoption at the
/// check. A path that the record of the user's directory already holds ends
/// it at the plan: such a path is never linked, recorded, committed or
/// pushed again. The push is made once, and its failure ends the adoption.
pub open spec fn adopt_next_spec(
    stage: AdoptStage,
    config: crate::config::ConfigView,
    facts: AdoptionView,
) -> AdoptStepView {
    match stage {
        AdoptStage::Check => if !facts.repo_exists {
            AdoptStepView::Failed(ErrorView::RepositoryMissing(facts.repo_name))
        } else if !facts.path_exists {
            AdoptStepView::Failed(ErrorView::PathMissing(facts.file_path))
        } else {
            AdoptStepView::Resolve
        },
        AdoptStage::Plan => match plan_tracking_spec(
            config,
            facts.local,
            facts.repo_name,
            facts.original_path,
        ) {
            Ok(path) => AdoptStepView::Track(path),
            Err(e) => AdoptStepView::Failed(e),
        },
        AdoptStage::Publish => if facts.push.succeeded() {
            AdoptStepView::Done
        } else {
            AdoptStepView::Failed(publish_failure(facts.push))
        },
    }
}

/// Decides what follows at `stage` of an adoption, given what the caller has
/// learned.
pub fn adopt_next(stage: AdoptStage, config: &Config, facts: &Adoption) -> (step: AdoptStep)
    ensures
        step@ == adopt_next_spec(stage, config@, facts@),
{
    match stage {
        AdoptStage::Check => match check_adoptable(
            facts.repo_exists,
            facts.path_exists,
            facts.repo_name,
            facts.file_path,
        ) {
            Ok(_) => AdoptStep::Resolve,
            Err(e) => AdoptStep::Failed(e),
        },
        AdoptStage::Plan => match plan_tracking(
            config,
            facts.local,
            facts.repo_name,
            facts.original_path,
        ) {
            Ok(path) => AdoptStep::Track(path),
            Err(e) => AdoptStep::Failed(e),
        },
        AdoptStage::Publish => match publish_result(facts.push) {
            Ok(_) => AdoptStep::Done,
            Err(e) => AdoptStep::Failed(e),
        },
    }
}

/// A path that the record of the user's directory already holds is refused
/// at the plan, whatever else is the case, and a path that it does not hold
/// is not refused on that ground.
pub proof fn lemma_tracked_path_is_refused(config: crate::config::ConfigView, facts: AdoptionView)
    ensures
        facts.local.files.dom().contains(facts.original_path) <==> adopt_next_spec(
            AdoptStage::Plan,
            config,
            facts,
        ) == AdoptStepView::Failed(ErrorView::AlreadyTracked),
{
}

/// The two ends of a link that brings the tracked copy `filename` of the
/// repository `repo_name` into `current_dir`: the tracked copy, and the place
/// in the directory.
pub fn plan_checkout(config: &Config, repo_name: &str, filename: &str, current_dir: &str) -> (ends: (
    String,
    String,
))
    ensures
        ends.0@ == tracked_path_of(path_join(config@.repos_dir, repo_name@), filename@),
        ends.1@ == path_join(current_dir@, filename@),
{
    let files = config.get_files_path(repo_name);
    (join_path(files.as_str(), filename), join_path(current_dir, filename))
}

/// Checks what must hold on disk before a tracked copy is brought into a
/// directory: the copy is there, and its place in the directory is free.
pub fn check_checkout(tracked_exists: bool, destination_exists: bool, filename: &str, repo_name: &str) -> (r:
    Result<(), GitboxError>)
    ensures
        match r {
            Ok(_) => tracked_exists && !destination_exists,
            Err(e) => e@ == (if !tracked_exists {
                ErrorView::TrackedCopyMissing { file: filename@, repository: repo_name@ }
            } else {
                ErrorView::DestinationExists(filename@)
            }) && !(tracked_exists && !destination_exists),
        },
{
    if !tracked_exists {
        Err(
            GitboxError::TrackedCopyMissing {
                file: filename.to_owned(),
                repository: repo_name.to_owned(),
            },
        )
    } else if destination_exists {
        Err(GitboxError::DestinationExists(filename.to_owned()))
    } else {
        Ok(())
    }
}

/// Records a tracked copy that was brought into a directory in the
/// directory's record, which is thereby associated with the repository.
pub fn record_checkout(
    local: &mut GitboxMetadata,
    repo_name: &str,
    destination: &str,
    tracked_path: &str,
    is_directory: bool,
) -> (id: String)
    ensures
        !old(local)@.holds_id(id@),
        final(local)@ == (MetadataView {
            files: old(local)@.files.insert(
                destination@,
                FileInfoView {
                    id: id@,
                    original_path: destination@,
                    synced_path: tracked_path@,
                    is_directory,
                },
            ),
            repo_name: Some(repo_name@),
        }),
{
    let id = local.add_file(destination, tracked_path, is_directory);
    local.repo_name = Some(repo_name.to_owned());
    id
}

} // verus!
