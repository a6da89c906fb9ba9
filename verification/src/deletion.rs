//! Deleting a repository from local storage.
//!
//! Deletion is local only: the remote is never touched, and neither are the
//! links that the user's directories still hold. Unless it is forced, the
//! deletion needs the user's explicit consent.

use vstd::prelude::*;
use crate::error::{ErrorView, GitboxError};
use crate::keyed::keys_of;
use crate::link::opt_str_view;
use crate::metadata::GitboxMetadata;
use crate::paths::{parent_of, path_parent};
use crate::resolver::{resolve, resolve_spec};
use crate::text::{contains_name, lowercased, str_eq, str_to_lowercase, str_trim, trimmed, views};

verus! {

/// One stage of a deletion. From the moment the repository is known the
/// stage carries its name along.
#[derive(Debug)]
pub enum DeleteStage {
    /// Find out which repository is meant.
    Resolve,
    /// Show what will be deleted and ask the user for consent.
    Confirm(String),
    /// Remove the repository's directory with everything in it.
    Remove(String),
}

/// The mathematical content of a [`DeleteStage`].
pub enum DeleteStageView {
    Resolve,
    Confirm(Seq<char>),
    Remove(Seq<char>),
}

impl View for DeleteStage {
    type V = DeleteStageView;

    open spec fn view(&self) -> DeleteStageView {
        match *self {
            DeleteStage::Resolve => DeleteStageView::Resolve,
            DeleteStage::Confirm(name) => DeleteStageView::Confirm(name@),
            DeleteStage::Remove(name) => DeleteStageView::Remove(name@),
        }
    }
}

/// What the caller has learned in the course of a deletion. Each stage reads
/// its own part and ignores the rest, so what is not known yet may hold
/// anything: the empty text, `None`, an empty list.
#[derive(Debug)]
pub struct Deletion<'a> {
    /// The name that the user gave, which may be a part of the full name.
    pub partial_name: &'a str,
    /// Whether the user asked to skip the request for consent.
    pub force: bool,
    /// The repositories on disk; read when the name is resolved.
    pub known_repos: &'a Vec<String>,
    /// The user's answer to the request for consent; read after asking.
    pub answer: &'a str,
    /// How the removal of the directory went: `None` when the directory is
    /// gone, and the reason otherwise; read after the removal.
    pub failure: Option<&'a str>,
}

/// The mathematical content of a [`Deletion`].
pub struct DeletionView {
    pub partial_name: Seq<char>,
    pub force: bool,
    pub known_repos: Seq<Seq<char>>,
    pub answer: Seq<char>,
    pub failure: Option<Seq<char>>,
}

impl<'a> View for Deletion<'a> {
    type V = DeletionView;

    open spec fn view(&self) -> DeletionView {
        DeletionView {
            partial_name: self.partial_name@,
            force: self.force,
            known_repos: views(self.known_repos@),
            answer: self.answer@,
            failure: opt_str_view(self.failure),
        }
    }
}

/// What to do next in the course of a deletion.
#[derive(Debug)]
pub enum DeleteStep {
    /// Do the work of this stage next.
    Run(DeleteStage),
    /// The user did not consent; nothing was deleted, and nothing is wrong.
    Cancelled,
    /// The directory of the named repository is gone.
    Done(String),
    /// The deletion has failed: the name stands for no single repository,
    /// or the directory could not be removed.
    Failed(GitboxError),
}

/// The mathematical content of a [`DeleteStep`].
pub enum DeleteStepView {
    Run(DeleteStageView),
    Cancelled,
    Done(Seq<char>),
    Failed(ErrorView),
}

impl View for DeleteStep {
    type V = DeleteStepView;

    open spec fn view(&self) -> DeleteStepView {
        match *self {
            DeleteStep::Run(stage) => DeleteStepView::Run(stage@),
            DeleteStep::Cancelled => DeleteStepView::Cancelled,
            DeleteStep::Done(name) => DeleteStepView::Done(name@),
            DeleteStep::Failed(e) => DeleteStepView::Failed(e@),
        }
    }
}

/// An answer counts as consent when, without the white space around it and
/// in lower case, it reads `y` or `yes`.
pub open spec fn consents(answer: Seq<char>) -> bool {
    lowercased(trimmed(answer)) == "y"@ || lowercased(trimmed(answer)) == "yes"@
}

/// The directories in which links to a repository's tracked copies may be
/// left behind: the parents of the original paths of `files`.
pub open spec fn dangling_dirs(files: Set<Seq<char>>) -> Set<Seq<char>> {
    Set::new(
        |dir: Seq<char>|
            exists|original: Seq<char>|
                files.contains(original) && #[trigger] path_parent(original) == Some(dir),
    )
}

/// Whether an answer of the user counts as consent.
pub fn confirmed(answer: &str) -> (yes: bool)
    ensures
        yes == consents(answer@),
{
    let normal = str_to_lowercase(str_trim(answer));
    str_eq(normal.as_str(), "y") || str_eq(normal.as_str(), "yes")
}

/// The transition of a deletion: what follows at `stage`, given what the
/// caller has learned.
///
/// A name that stands for no single repository ends the deletion with the
/// resolver's failure, before anyone is asked and before anything is
/// removed. Unless the deletion is forced, the user is asked, and any answer
/// that is no consent ends the deletion without a failure.
pub open spec fn delete_next_spec(stage: DeleteStageView, facts: DeletionView) -> DeleteStepView {
    match stage {
        DeleteStageView::Resolve => match resolve_spec(facts.partial_name, facts.known_repos) {
            Err(e) => DeleteStepView::Failed(e),
            Ok(name) => if facts.force {
                DeleteStepView::Run(DeleteStageView::Remove(name))
            } else {
                DeleteStepView::Run(DeleteStageView::Confirm(name))
            },
        },
        DeleteStageView::Confirm(name) => if consents(facts.answer) {
            DeleteStepView::Run(DeleteStageView::Remove(name))
        } else {
            DeleteStepView::Cancelled
        },
        DeleteStageView::Remove(name) => match facts.failure {
            None => DeleteStepView::Done(name),
            Some(why) => DeleteStepView::Failed(
                ErrorView::Collaborator {
                    context: "Failed to delete repository directory"@,
                    detail: why,
                },
            ),
        },
    }
}

impl DeleteStageView {
    /// The stage that every deletion begins with.
    pub open spec fn first() -> DeleteStageView {
        DeleteStageView::Resolve
    }

    /// The position of a stage in the course of a deletion.
    pub open spec fn rank(self) -> nat {
        match self {
            DeleteStageView::Resolve => 0,
            DeleteStageView::Confirm(_) => 1,
            DeleteStageView::Remove(_) => 2,
        }
    }
}

/// The stage that every deletion begins with.
pub fn delete_first() -> (stage: DeleteStage)
    ensures
        stage@ == DeleteStageView::first(),
{
    DeleteStage::Resolve
}

/// Decides what follows at `stage` of a deletion, given what the caller has
/// learned.
pub fn delete_next(stage: DeleteStage, facts: &Deletion) -> (step: DeleteStep)
    ensures
        step@ == delete_next_spec(stage@, facts@),
{
    match stage {
        DeleteStage::Resolve => match resolve(facts.partial_name, facts.known_repos) {
            Err(e) => DeleteStep::Failed(e),
            Ok(name) => if facts.force {
                DeleteStep::Run(DeleteStage::Remove(name))
            } else {
                DeleteStep::Run(DeleteStage::Confirm(name))
            },
        },
        DeleteStage::Confirm(name) => if confirmed(facts.answer) {
            DeleteStep::Run(DeleteStage::Remove(name))
        } else {
            DeleteStep::Cancelled
        },
        DeleteStage::Remove(name) => match facts.failure {
            None => DeleteStep::Done(name),
            Some(why) => DeleteStep::Failed(
                GitboxError::Collaborator {
                    context: "Failed to delete repository directory".to_owned(),
                    detail: why.to_owned(),
                },
            ),
        },
    }
}

/// The directories in which the user may now find dangling links: the
/// parent of every original path that the deleted repository tracked, each
/// directory once.
pub fn dangling_link_dirs(record: &GitboxMetadata) -> (dirs: Vec<String>)
    ensures
        views(dirs@).no_duplicates(),
        views(dirs@).to_set() == dangling_dirs(record@.files.dom()),
{
    let entries = record.files.entries();
    let ghost keys = keys_of(entries@);
    let mut dirs: Vec<String> = Vec::new();
    let mut i: usize = 0;
    while i < entries.len()
        invariant
            i <= entries@.len(),
            keys == keys_of(entries@),
            views(dirs@).no_duplicates(),
            forall|dir: Seq<char>| #[trigger]
                views(dirs@).contains(dir) <==> exists|j: int|
                    0 <= j < i && path_parent(#[trigger] keys[j]) == Some(dir),
        decreases entries@.len() - i,
    {
        let ghost before = views(dirs@);
        assert(keys[i as int] == entries@[i as int].key@);
        match parent_of(entries[i].key.as_str()) {
            Some(dir) => {
                if !contains_name(&dirs, dir.as_str()) {
                    let ghost old_dirs = dirs@;
                    dirs.push(dir);
                    proof {
                        assert(views(dirs@) =~= before.push(dir@));
                        assert forall|d: Seq<char>| #[trigger]
                            views(dirs@).contains(d) <==> exists|j: int|
                                0 <= j < i + 1 && path_parent(#[trigger] keys[j]) == Some(d) by {
                            if views(dirs@).contains(d) {
                                let k = choose|k: int|
                                    0 <= k < views(dirs@).len() && views(dirs@)[k] == d;
                                if k < before.len() {
                                    assert(before[k] == d);
                                    assert(before.contains(d));
                                } else {
                                    assert(path_parent(keys[i as int]) == Some(d));
                                }
                            }
                            if exists|j: int|
                                0 <= j < i + 1 && path_parent(#[trigger] keys[j]) == Some(d) {
                                let j = choose|j: int|
                                    0 <= j < i + 1 && path_parent(#[trigger] keys[j]) == Some(d);
                                if j < i {
                                    assert(before.contains(d));
                                    let k = choose|k: int| 0 <= k < before.len() && before[k] == d;
                                    assert(views(dirs@)[k] == d);
                                } else {
                                    assert(views(dirs@)[before.len() as int] == d);
                                }
                            }
                        }
                    }
                } else {
                    proof {
                        assert forall|d: Seq<char>| #[trigger]
                            views(dirs@).contains(d) <==> exists|j: int|
                                0 <= j < i + 1 && path_parent(#[trigger] keys[j]) == Some(d) by {
                            if views(dirs@).contains(d) {
                                let j = choose|j: int|
                                    0 <= j < i && path_parent(#[trigger] keys[j]) == Some(d);
                                assert(0 <= j < i + 1);
                            }
                            if exists|j: int|
                                0 <= j < i + 1 && path_parent(#[trigger] keys[j]) == Some(d) {
                                let j = choose|j: int|
                                    0 <= j < i + 1 && path_parent(#[trigger] keys[j]) == Some(d);
                                if j == i {
                                    assert(d == dir@);
                                }
                            }
                        }
                    }
                }
            },
            None => {
                proof {
                    assert forall|d: Seq<char>| #[trigger]
                        views(dirs@).contains(d) <==> exists|j: int|
                            0 <= j < i + 1 && path_parent(#[trigger] keys[j]) == Some(d) by {
                        if views(dirs@).contains(d) {
                            let j = choose|j: int|
                                0 <= j < i && path_parent(#[trigger] keys[j]) == Some(d);
                            assert(0 <= j < i + 1);
                        }
                    }
                }
            },
        }
        i += 1;
    }
    proof {
        let files = record@.files.dom();
        assert forall|d: Seq<char>| views(dirs@).to_set().contains(d) == dangling_dirs(
            files,
        ).contains(d) by {
            if views(dirs@).contains(d) {
                let j = choose|j: int|
                    0 <= j < entries@.len() && path_parent(#[trigger] keys[j]) == Some(d);
                assert(keys.contains(keys[j]));
                assert(files.contains(keys[j]));
            }
            if dangling_dirs(files).contains(d) {
                let original = choose|original: Seq<char>|
                    files.contains(original) && #[trigger] path_parent(original) == Some(d);
                assert(keys.contains(original));
                let j = choose|j: int| 0 <= j < keys.len() && keys[j] == original;
                assert(path_parent(keys[j]) == Some(d));
            }
        }
        assert(views(dirs@).to_set() =~= dangling_dirs(files));
    }
    dirs
}

/// Nothing is removed without consent unless the deletion is forced: a
/// deletion that is not forced goes from the resolved name to the request
/// for consent, never straight to the removal, and from there to the removal
/// exactly when the answer is a consent. No stage leads back.
pub proof fn lemma_removal_needs_consent(stage: DeleteStageView, facts: DeletionView)
    ensures
        delete_next_spec(stage, facts) matches DeleteStepView::Run(next) ==> stage.rank()
            < next.rank(),
        stage is Resolve && !facts.force ==> !(delete_next_spec(stage, facts)
            matches DeleteStepView::Run(DeleteStageView::Remove(_))),
        stage is Confirm ==> (delete_next_spec(stage, facts) matches DeleteStepView::Run(
            DeleteStageView::Remove(_),
        ) <==> consents(facts.answer)),
        stage is Confirm && !consents(facts.answer) ==> delete_next_spec(stage, facts)
            == DeleteStepView::Cancelled,
        !(stage is Remove) ==> !(delete_next_spec(stage, facts) is Done),
{
}

} // verus!
