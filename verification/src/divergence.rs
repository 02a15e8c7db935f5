//! How far a branch has moved away from its upstream.

use crate::error::RepoError;
use vstd::prelude::*;
use vstd::string::*;

verus! {

/// The commits that one side has and the other lacks: `ahead` on the local
/// branch only, `behind` on its upstream only.
#[derive(Clone, Copy, Debug, PartialEq, Eq, Structural)]
pub struct DivergenceCount {
    pub ahead: usize,
    pub behind: usize,
}

impl DivergenceCount {
    /// No divergence; also the count of a HEAD that tracks nothing.
    pub open spec fn none() -> DivergenceCount {
        DivergenceCount { ahead: 0, behind: 0 }
    }

    /// No divergence.
    pub fn zero() -> (d: DivergenceCount)
        ensures
            d == DivergenceCount::none(),
    {
        DivergenceCount { ahead: 0, behind: 0 }
    }
}

/// What was seen of a local branch and of the upstream that it tracks.
#[derive(Clone, Debug, PartialEq, Eq)]
pub enum TrackingEvidence {
    /// The local branch could not be looked up; `diagnostic` says why.
    BranchMissing { diagnostic: String },
    /// No upstream could be looked up for the branch.
    NoUpstream,
    /// The branch or its upstream does not point at a commit directly.
    TipUnresolved,
    /// The walk of the commit graph failed; `diagnostic` says why.
    WalkFailed { diagnostic: String },
    /// The commits on each side of the merge base were counted.
    Counted { ahead: usize, behind: usize },
}

impl TrackingEvidence {
    /// The count that the evidence amounts to, if it amounts to one.  A
    /// branch without an upstream has not diverged.
    pub open spec fn count(self) -> Option<DivergenceCount> {
        match self {
            TrackingEvidence::NoUpstream => Some(DivergenceCount::none()),
            TrackingEvidence::Counted { ahead, behind } => Some(DivergenceCount { ahead, behind }),
            _ => None,
        }
    }

    /// The message of the failure that the evidence amounts to otherwise,
    /// for the branch named `branch`.
    pub open spec fn failure(self, branch: Seq<char>) -> Seq<char> {
        match self {
            TrackingEvidence::BranchMissing { diagnostic } => diagnostic@ + "branch!"@ + branch,
            TrackingEvidence::WalkFailed { diagnostic } => diagnostic@ + "ahead-behind!"@,
            _ => "Could not get branch target!"@,
        }
    }
}

impl DivergenceCount {
    /// Decides the divergence of the branch named `branch` from what was seen
    /// of it and of its upstream.
    ///
    /// A branch that tracks nothing has not diverged, whatever its history.
    /// A tip that does not resolve and a failed walk are failures.
    pub fn from_evidence(branch: &str, evidence: TrackingEvidence) -> (r: Result<
        DivergenceCount,
        RepoError,
    >)
        ensures
            match r {
                Ok(d) => evidence.count() == Some(d),
                Err(e) => evidence.count() is None && e is Divergence && e.text()
                    == evidence.failure(branch@),
            },
            evidence is NoUpstream ==> r == Ok::<DivergenceCount, RepoError>(
                DivergenceCount::none(),
            ),
    {
        match evidence {
            TrackingEvidence::BranchMissing { diagnostic } => {
                let mut message = diagnostic;
                message.append("branch!");
                message.append(branch);
                Err(RepoError::Divergence(message))
            },
            TrackingEvidence::NoUpstream => Ok(DivergenceCount::zero()),
            TrackingEvidence::TipUnresolved => Err(
                RepoError::Divergence(String::from_str("Could not get branch target!")),
            ),
            TrackingEvidence::WalkFailed { diagnostic } => {
                let mut message = diagnostic;
                message.append("ahead-behind!");
                Err(RepoError::Divergence(message))
            },
            TrackingEvidence::Counted { ahead, behind } => Ok(DivergenceCount { ahead, behind }),
        }
    }
}

} // verus!
