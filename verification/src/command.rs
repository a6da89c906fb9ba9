//! What the library learns about an external command that was run for it.

use vstd::prelude::*;
use crate::text::{str_trim, trimmed};

verus! {

/// The outcome of one external command.
#[derive(Debug)]
pub enum Outcome {
    /// The command could not be started; the text says why.
    NotStarted(String),
    /// The command ran to its end.
    Exited { success: bool, stdout: String, stderr: String },
}

/// The mathematical content of an [`Outcome`].
pub enum OutcomeView {
    NotStarted(Seq<char>),
    Exited { success: bool, stdout: Seq<char>, stderr: Seq<char> },
}

impl View for Outcome {
    type V = OutcomeView;

    open spec fn view(&self) -> OutcomeView {
        match *self {
            Outcome::NotStarted(why) => OutcomeView::NotStarted(why@),
            Outcome::Exited { success, stdout, stderr } => OutcomeView::Exited {
                success,
                stdout: stdout@,
                stderr: stderr@,
            },
        }
    }
}

impl OutcomeView {
    /// The command ran and reported success.
    pub open spec fn succeeded(self) -> bool {
        self matches OutcomeView::Exited { success, .. } && success
    }

    /// The answer of a query whose failure only means that nothing is
    /// known: the standard output without the white space around it.
    pub open spec fn answer(self) -> Option<Seq<char>> {
        match self {
            OutcomeView::Exited { success, stdout, .. } => if success {
                Some(trimmed(stdout))
            } else {
                None
            },
            OutcomeView::NotStarted(_) => None,
        }
    }
}

impl Outcome {
    /// An outcome that reports success with the given standard output.
    pub fn success(stdout: &str) -> (outcome: Outcome)
        ensures
            outcome@ == (OutcomeView::Exited {
                success: true,
                stdout: stdout@,
                stderr: Seq::<char>::empty(),
            }),
    {
        Outcome::Exited { success: true, stdout: stdout.to_owned(), stderr: String::new() }
    }

    /// An outcome that reports failure with the given diagnostic text.
    pub fn failure(stderr: &str) -> (outcome: Outcome)
        ensures
            outcome@ == (OutcomeView::Exited {
                success: false,
                stdout: Seq::<char>::empty(),
                stderr: stderr@,
            }),
    {
        Outcome::Exited { success: false, stdout: String::new(), stderr: stderr.to_owned() }
    }

    /// The answer of a query whose failure only means that nothing is known,
    /// such as the query for a repository's remote.
    pub fn answer(&self) -> (text: Option<String>)
        ensures
            crate::text::opt_view(text) == self@.answer(),
    {
        match self {
            Outcome::Exited { success, stdout, .. } => if *success {
                Some(str_trim(stdout.as_str()).to_owned())
            } else {
                None
            },
            Outcome::NotStarted(_) => None,
        }
    }

    /// Whether the command ran and reported success.
    pub fn succeeded(&self) -> (ok: bool)
        ensures
            ok == self@.succeeded(),
    {
        match self {
            Outcome::Exited { success, .. } => *success,
            Outcome::NotStarted(_) => false,
        }
    }
}

} // verus!
