//! The result of a status query.

use crate::changes::{ChangeClassification, ChangeCounts};
use crate::divergence::DivergenceCount;
use crate::error::RepoError;
use crate::reference::{ReferenceDescriptor, ReferenceKind, ReferenceModel};
use vstd::prelude::*;

verus! {

/// The mathematical value of a [`StatusSnapshot`].
pub struct SnapshotModel {
    pub reference: ReferenceModel,
    pub divergence: DivergenceCount,
    pub changes: ChangeCounts,
}

impl SnapshotModel {
    /// The reference is well formed, and only a branch diverges: a tag, a
    /// detached commit and an unborn HEAD have an upstream of none.
    pub open spec fn wf(self) -> bool {
        &&& self.reference.wf()
        &&& !(self.reference.kind is Branch) ==> self.divergence == DivergenceCount::none()
    }

    /// The snapshot of `reference` with the given counts.  A divergence
    /// handed in for anything but a branch does not count.
    pub open spec fn of(
        reference: ReferenceModel,
        divergence: DivergenceCount,
        changes: ChangeCounts,
    ) -> SnapshotModel {
        SnapshotModel {
            reference,
            divergence: if reference.kind is Branch {
                divergence
            } else {
                DivergenceCount::none()
            },
            changes,
        }
    }
}

/// Where a worktree stands: its reference, its divergence from the upstream
/// and its pending changes, all read from one open repository.
#[derive(Debug, PartialEq, Eq)]
pub struct StatusSnapshot {
    reference: ReferenceDescriptor,
    divergence: DivergenceCount,
    changes: ChangeClassification,
}

impl View for StatusSnapshot {
    type V = SnapshotModel;

    closed spec fn view(&self) -> SnapshotModel {
        SnapshotModel {
            reference: self.reference@,
            divergence: self.divergence,
            changes: self.changes@,
        }
    }
}

/// The flat record in which a snapshot travels to the caller.
#[derive(Clone, Debug, PartialEq, Eq)]
pub struct BranchState {
    pub branch: String,
    pub ahead: usize,
    pub behind: usize,
    pub staged: usize,
    pub modified: usize,
    pub deleted: usize,
    pub untracked: usize,
    pub conflict: usize,
}

impl BranchState {
    /// Whether the record carries the values of `snapshot`.  The branch
    /// string is the name of the reference: a branch's or a tag's name, and
    /// empty for a detached commit and for an unborn HEAD.
    pub open spec fn carries(self, snapshot: SnapshotModel) -> bool {
        &&& self.branch@ == snapshot.reference.name
        &&& self.ahead == snapshot.divergence.ahead
        &&& self.behind == snapshot.divergence.behind
        &&& self.staged == snapshot.changes.staged
        &&& self.modified == snapshot.changes.modified
        &&& self.deleted == snapshot.changes.deleted
        &&& self.untracked == snapshot.changes.untracked
        &&& self.conflict == snapshot.changes.conflicted
    }
}

impl Clone for StatusSnapshot {
    fn clone(&self) -> (s: StatusSnapshot)
        ensures
            s@ == self@,
    {
        proof {
            use_type_invariant(self);
        }
        StatusSnapshot {
            reference: self.reference.clone(),
            divergence: self.divergence,
            changes: self.changes,
        }
    }
}

impl StatusSnapshot {
    #[verifier::type_invariant]
    spec fn well_formed(self) -> bool {
        self@.wf()
    }

    /// Puts a snapshot together.  `divergence` counts only where `reference`
    /// is a branch.
    pub fn assemble(
        reference: ReferenceDescriptor,
        divergence: DivergenceCount,
        changes: ChangeClassification,
    ) -> (s: StatusSnapshot)
        ensures
            s@ == SnapshotModel::of(reference@, divergence, changes@),
            s@.wf(),
    {
        let divergence = match reference.kind() {
            ReferenceKind::Branch => divergence,
            _ => DivergenceCount::zero(),
        };
        StatusSnapshot { reference, divergence, changes }
    }

    /// Completes a query whose reference and divergence are known, with the
    /// classification of the pending changes or with the failure to get it.
    pub fn complete(
        reference: ReferenceDescriptor,
        divergence: DivergenceCount,
        classified: Result<ChangeClassification, RepoError>,
    ) -> (r: Result<StatusSnapshot, RepoError>)
        ensures
            match classified {
                Ok(changes) => r matches Ok(s) && s@ == SnapshotModel::of(
                    reference@,
                    divergence,
                    changes@,
                ) && s@.wf(),
                Err(e) => r == Err::<StatusSnapshot, RepoError>(e),
            },
    {
        match classified {
            Ok(changes) => Ok(StatusSnapshot::assemble(reference, divergence, changes)),
            Err(e) => Err(e),
        }
    }

    /// The identity of HEAD.
    pub fn reference(&self) -> (r: &ReferenceDescriptor)
        ensures
            r@ == self@.reference,
            self@.wf(),
    {
        proof {
            use_type_invariant(self);
        }
        &self.reference
    }

    /// The divergence from the upstream; zero for anything but a branch.
    pub fn divergence(&self) -> (d: DivergenceCount)
        ensures
            d == self@.divergence,
            self@.wf(),
    {
        proof {
            use_type_invariant(self);
        }
        self.divergence
    }

    /// The pending changes.
    pub fn changes(&self) -> (c: ChangeClassification)
        ensures
            c@ == self@.changes,
            self@.wf(),
    {
        proof {
            use_type_invariant(self);
        }
        self.changes
    }

    /// The flat record of this snapshot.
    pub fn to_branch_state(&self) -> (state: BranchState)
        ensures
            state.carries(self@),
    {
        BranchState {
            branch: self.reference.name().to_owned(),
            ahead: self.divergence.ahead,
            behind: self.divergence.behind,
            staged: self.changes.staged,
            modified: self.changes.modified,
            deleted: self.changes.deleted,
            untracked: self.changes.untracked,
            conflict: self.changes.conflicted,
        }
    }
}

} // verus!
