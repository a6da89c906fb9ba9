//! The link strategy: how an original path is tied to its tracked copy.
//!
//! A directory can only be linked symbolically. A file is linked hard where
//! the filesystem allows it, so that edits through either path reach the
//! same content, and symbolically where it does not. The library decides;
//! the caller performs each filesystem operation and reports how it went.

use vstd::prelude::*;
use crate::error::{ErrorView, GitboxError};

verus! {

/// What the caller found on disk before linking.
#[derive(Clone, Copy, Debug, PartialEq, Eq, Structural)]
pub struct LinkProbe {
    /// Something already sits at the link's place.
    pub target_exists: bool,
    /// The link's place has a parent directory, and it is not there yet.
    pub parent_missing: bool,
    /// The path to be linked is a directory.
    pub original_is_dir: bool,
}

/// One filesystem operation of the strategy.
#[derive(Clone, Copy, Debug, PartialEq, Eq, Structural)]
pub enum LinkStage {
    /// Remove what sits at the link's place.
    RemoveTarget,
    /// Create the parent directory of the link's place.
    CreateParent,
    /// Make a hard link.
    HardLink,
    /// Make a symbolic link.
    SymLink,
}

/// The mechanism that tied the two paths together.
#[derive(Clone, Copy, Debug, PartialEq, Eq, Structural)]
pub enum LinkKind {
    Hard,
    Symbolic,
}

/// What to do after a filesystem operation has been attempted.
#[derive(Debug)]
pub enum LinkStep {
    /// Perform `stage` next. `fell_back` says that a hard link was refused
    /// and a symbolic link takes its place; this is worth a log line and is
    /// no failure.
    Run { stage: LinkStage, fell_back: bool },
    /// The link is in place.
    Done(LinkKind),
    /// Linking has failed.
    Failed(GitboxError),
}

/// The mathematical content of a [`LinkStep`].
pub enum LinkStepView {
    Run { stage: LinkStage, fell_back: bool },
    Done(LinkKind),
    Failed(ErrorView),
}

impl View for LinkStep {
    type V = LinkStepView;

    open spec fn view(&self) -> LinkStepView {
        match *self {
            LinkStep::Run { stage, fell_back } => LinkStepView::Run { stage, fell_back },
            LinkStep::Done(kind) => LinkStepView::Done(kind),
            LinkStep::Failed(e) => LinkStepView::Failed(e@),
        }
    }
}

impl LinkProbe {
    /// The operation that makes the link itself.
    pub open spec fn linking(self) -> LinkStage {
        if self.original_is_dir {
            LinkStage::SymLink
        } else {
            LinkStage::HardLink
        }
    }

    /// The operation that comes once the link's place is free.
    pub open spec fn after_removal(self) -> LinkStage {
        if self.parent_missing {
            LinkStage::CreateParent
        } else {
            self.linking()
        }
    }

    /// The first operation.
    pub open spec fn first(self) -> LinkStage {
        if self.target_exists {
            LinkStage::RemoveTarget
        } else {
            self.after_removal()
        }
    }
}

impl LinkStage {
    /// The position of an operation in the strategy.
    pub open spec fn rank(self) -> nat {
        match self {
            LinkStage::RemoveTarget => 0,
            LinkStage::CreateParent => 1,
            LinkStage::HardLink => 2,
            LinkStage::SymLink => 3,
        }
    }
}

/// The strategy's transition: what follows when `stage` was attempted and
/// `failure` tells how it went (`None` for success, else the reason).
pub open spec fn link_next_spec(stage: LinkStage, probe: LinkProbe, failure: Option<Seq<char>>) -> LinkStepView {
    match stage {
        LinkStage::RemoveTarget => match failure {
            None => LinkStepView::Run { stage: probe.after_removal(), fell_back: false },
            Some(why) => LinkStepView::Failed(
                ErrorView::Collaborator { context: "Failed to remove existing link"@, detail: why },
            ),
        },
        LinkStage::CreateParent => match failure {
            None => LinkStepView::Run { stage: probe.linking(), fell_back: false },
            Some(why) => LinkStepView::Failed(
                ErrorView::Collaborator { context: "Failed to create parent directory"@, detail: why },
            ),
        },
        LinkStage::HardLink => match failure {
            None => LinkStepView::Done(LinkKind::Hard),
            Some(_) => LinkStepView::Run { stage: LinkStage::SymLink, fell_back: true },
        },
        LinkStage::SymLink => match failure {
            None => LinkStepView::Done(LinkKind::Symbolic),
            Some(why) => LinkStepView::Failed(ErrorView::LinkFailed(why)),
        },
    }
}

/// The view of an optional borrowed string.
pub open spec fn opt_str_view(s: Option<&str>) -> Option<Seq<char>> {
    match s {
        Some(t) => Some(t@),
        None => None,
    }
}

/// The operation that makes the link itself.
fn linking(probe: LinkProbe) -> (stage: LinkStage)
    ensures
        stage == probe.linking(),
{
    if probe.original_is_dir {
        LinkStage::SymLink
    } else {
        LinkStage::HardLink
    }
}

/// The operation that comes once the link's place is free.
fn after_removal(probe: LinkProbe) -> (stage: LinkStage)
    ensures
        stage == probe.after_removal(),
{
    if probe.parent_missing {
        LinkStage::CreateParent
    } else {
        linking(probe)
    }
}

/// The first operation of the strategy for what was found on disk.
pub fn link_first(probe: LinkProbe) -> (stage: LinkStage)
    ensures
        stage == probe.first(),
{
    if probe.target_exists {
        LinkStage::RemoveTarget
    } else {
        after_removal(probe)
    }
}

/// Decides what follows when `stage` was attempted. `failure` is `None` when
/// the operation succeeded, and the reason of the failure otherwise.
pub fn link_next(stage: LinkStage, probe: LinkProbe, failure: Option<&str>) -> (step: LinkStep)
    ensures
        step@ == link_next_spec(stage, probe, opt_str_view(failure)),
{
    match stage {
        LinkStage::RemoveTarget => match failure {
            None => LinkStep::Run { stage: after_removal(probe), fell_back: false },
            Some(why) => LinkStep::Failed(
                GitboxError::Collaborator {
                    context: "Failed to remove existing link".to_owned(),
                    detail: why.to_owned(),
                },
            ),
        },
        LinkStage::CreateParent => match failure {
            None => LinkStep::Run { stage: linking(probe), fell_back: false },
            Some(why) => LinkStep::Failed(
                GitboxError::Collaborator {
                    context: "Failed to create parent directory".to_owned(),
                    detail: why.to_owned(),
                },
            ),
        },
        LinkStage::HardLink => match failure {
            None => LinkStep::Done(LinkKind::Hard),
            Some(_) => LinkStep::Run { stage: LinkStage::SymLink, fell_back: true },
        },
        LinkStage::SymLink => match failure {
            None => LinkStep::Done(LinkKind::Symbolic),
            Some(why) => LinkStep::Failed(GitboxError::LinkFailed(why.to_owned())),
        },
    }
}

/// The operations that linking goes through, beginning at `stage`, when they
/// end as `failures` tell in turn.
pub open spec fn link_trace(stage: LinkStage, probe: LinkProbe, failures: Seq<Option<Seq<char>>>) -> Seq<LinkStage>
    decreases failures.len(),
{
    if failures.len() == 0 {
        seq![stage]
    } else {
        match link_next_spec(stage, probe, failures[0]) {
            LinkStepView::Run { stage: next, .. } => seq![stage] + link_trace(
                next,
                probe,
                failures.drop_first(),
            ),
            _ => seq![stage],
        }
    }
}

/// A refused hard link is never a failure: a symbolic link is tried in its
/// place. A refused symbolic link always is one, and carries the reason.
pub proof fn lemma_hard_link_falls_back(probe: LinkProbe, why: Seq<char>)
    ensures
        link_next_spec(LinkStage::HardLink, probe, Some(why)) == (LinkStepView::Run {
            stage: LinkStage::SymLink,
            fell_back: true,
        }),
        link_next_spec(LinkStage::SymLink, probe, Some(why)) == LinkStepView::Failed(
            ErrorView::LinkFailed(why),
        ),
{
}

/// The strategy never goes back to an earlier operation.
pub proof fn lemma_link_step_advances(stage: LinkStage, probe: LinkProbe, failure: Option<Seq<char>>)
    ensures
        link_next_spec(stage, probe, failure) matches LinkStepView::Run { stage: next, .. }
            ==> stage.rank() < next.rank(),
{
}

/// However the operations end: no operation is attempted twice, so there is
/// no retry beyond the one fallback, and a directory is never hard-linked.
pub proof fn lemma_link_trace(probe: LinkProbe, failures: Seq<Option<Seq<char>>>)
    ensures
        link_trace(probe.first(), probe, failures).no_duplicates(),
        link_trace(probe.first(), probe, failures).len() <= 4,
        probe.original_is_dir ==> !link_trace(probe.first(), probe, failures).contains(
            LinkStage::HardLink,
        ),
{
    let trace = link_trace(probe.first(), probe, failures);
    lemma_link_trace_from(probe.first(), probe, failures);
    assert forall|i: int, j: int| 0 <= i < trace.len() && 0 <= j < trace.len() && i != j implies trace[i]
        != trace[j] by {
        if i < j {
            assert(trace[i].rank() < trace[j].rank());
        } else {
            assert(trace[j].rank() < trace[i].rank());
        }
    }
    if trace.len() > 4 {
        assert(trace[0].rank() < trace[1].rank());
        assert(trace[1].rank() < trace[2].rank());
        assert(trace[2].rank() < trace[3].rank());
        assert(trace[3].rank() < trace[4].rank());
    }
}

/// Along a trace the ranks ascend, and an operation that the probe rules out
/// at the start stays ruled out.
proof fn lemma_link_trace_from(stage: LinkStage, probe: LinkProbe, failures: Seq<Option<Seq<char>>>)
    ensures
        link_trace(stage, probe, failures)[0] == stage,
        forall|i: int, j: int|
            0 <= i < j < link_trace(stage, probe, failures).len() ==> (#[trigger] link_trace(
                stage,
                probe,
                failures,
            )[i]).rank() < (#[trigger] link_trace(stage, probe, failures)[j]).rank(),
        probe.original_is_dir && stage != LinkStage::HardLink ==> !link_trace(
            stage,
            probe,
            failures,
        ).contains(LinkStage::HardLink),
    decreases failures.len(),
{
    let trace = link_trace(stage, probe, failures);
    if failures.len() > 0 {
        match link_next_spec(stage, probe, failures[0]) {
            LinkStepView::Run { stage: next, .. } => {
                let tail = link_trace(next, probe, failures.drop_first());
                lemma_link_trace_from(next, probe, failures.drop_first());
                assert forall|i: int, j: int| 0 <= i < j < trace.len() implies (#[trigger] trace[i]).rank()
                    < (#[trigger] trace[j]).rank() by {
                    assert(trace[j] == tail[j - 1]);
                    if i > 0 {
                        assert(trace[i] == tail[i - 1]);
                    } else if j > 1 {
                        assert(tail[0].rank() < tail[j - 1].rank());
                    }
                }
                if probe.original_is_dir && stage != LinkStage::HardLink {
                    assert forall|k: int| 0 <= k < trace.len() implies trace[k]
                        != LinkStage::HardLink by {
                        if k > 0 {
                            assert(trace[k] == tail[k - 1]);
                        }
                    }
                }
            },
            _ => {},
        }
    }
}

} // verus!
