//! The stages of an update run and the order in which they may be visited.

use vstd::prelude::*;

verus! {

/// A named point in the orchestrator's fixed sequence, observable by
/// consumers.
#[derive(Clone, Copy, Debug, PartialEq, Eq, Structural)]
pub enum Stage {
    /// Installing the dependency tree, if it is not there yet.
    Bootstrapping,
    /// Comparing the local version marker with the remote one.
    CheckingUpdate,
    /// Fetching the content archive.
    Downloading,
    /// Replacing the content tree with the fetched archive.
    Extracting,
    /// Terminal: everything is in place and a launch is permitted.
    Ready,
    /// Terminal: a step failed.
    Failed,
}

impl Stage {
    /// Position of the stage in the fixed sequence; `Failed` comes last.
    pub open spec fn rank(self) -> nat {
        match self {
            Stage::Bootstrapping => 0,
            Stage::CheckingUpdate => 1,
            Stage::Downloading => 2,
            Stage::Extracting => 3,
            Stage::Ready => 4,
            Stage::Failed => 5,
        }
    }

    /// `Ready` and `Failed` end a run.
    pub open spec fn spec_is_terminal(self) -> bool {
        self is Ready || self is Failed
    }

    /// A stage may be followed by any later stage of the sequence, and by
    /// `Failed`, unless it is terminal.
    pub open spec fn spec_may_advance_to(self, next: Stage) -> bool {
        !self.spec_is_terminal() && self.rank() < next.rank()
    }

    /// The text shown beside the progress bar while the stage is under way.
    /// Terminal stages have none.
    pub open spec fn label_text(self) -> Option<Seq<char>> {
        match self {
            Stage::Bootstrapping => Some("Downloading BepInEx"@),
            Stage::CheckingUpdate => Some("Checking for updates"@),
            Stage::Downloading => Some("Downloading Slop Crew"@),
            Stage::Extracting => Some("Extracting Slop Crew"@),
            Stage::Ready => None,
            Stage::Failed => None,
        }
    }

    /// Whether the stage ends a run.
    #[verifier::when_used_as_spec(spec_is_terminal)]
    pub fn is_terminal(self) -> (b: bool)
        ensures
            b == self.spec_is_terminal(),
    {
        match self {
            Stage::Ready | Stage::Failed => true,
            _ => false,
        }
    }

    /// Whether a run that is at `self` may move to `next`.
    #[verifier::when_used_as_spec(spec_may_advance_to)]
    pub fn may_advance_to(self, next: Stage) -> (b: bool)
        ensures
            b == self.spec_may_advance_to(next),
    {
        match self {
            Stage::Bootstrapping => !matches!(next, Stage::Bootstrapping),
            Stage::CheckingUpdate => !matches!(next, Stage::Bootstrapping | Stage::CheckingUpdate),
            Stage::Downloading => matches!(next, Stage::Extracting | Stage::Ready | Stage::Failed),
            Stage::Extracting => matches!(next, Stage::Ready | Stage::Failed),
            Stage::Ready | Stage::Failed => false,
        }
    }

    /// The text to show beside the progress bar, for a stage that is under
    /// way.
    pub fn label(self) -> (text: Option<&'static str>)
        ensures
            match text {
                Some(t) => self.label_text() == Some(t@),
                None => self.label_text() is None,
            },
    {
        match self {
            Stage::Bootstrapping => Some("Downloading BepInEx"),
            Stage::CheckingUpdate => Some("Checking for updates"),
            Stage::Downloading => Some("Downloading Slop Crew"),
            Stage::Extracting => Some("Extracting Slop Crew"),
            Stage::Ready | Stage::Failed => None,
        }
    }
}

/// Advancing is transitive: a stage reached in two moves could have been
/// reached in one.
pub proof fn lemma_advance_transitive(a: Stage, b: Stage, c: Stage)
    requires
        a.may_advance_to(b),
        b.may_advance_to(c),
    ensures
        a.may_advance_to(c),
{
}

/// No stage advances to itself or to an earlier one, and nothing follows a
/// terminal stage.
pub proof fn lemma_advance_is_strict(a: Stage, b: Stage)
    ensures
        a.may_advance_to(b) ==> !b.may_advance_to(a) && a != b,
        a.is_terminal() ==> !a.may_advance_to(b),
{
}

} // verus!
