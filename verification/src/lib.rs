//! Working-tree status aggregation for a directory of git worktrees.
//!
//! The crate answers one question about a worktree: where does its HEAD
//! stand, how far has it diverged from its upstream, and how many pending
//! changes of each category does it hold.  [`query`] gives the answer for a
//! path.  The decisions are stated over plain values and proved; the calls
//! into `git2` that supply those values sit behind small wrappers in
//! [`repository`].
//!
//! Beside the query stand the smaller decisions of the desktop shell that
//! shows the answer: which program starts an application ([`launcher`]),
//! where its icon comes from ([`icons`], [`serving`]), which applications
//! are offered at first ([`actions`]) and which entries of a directory are
//! worktrees ([`scan`]).

pub mod actions;
pub mod changes;
pub mod divergence;
pub mod error;
pub mod icons;
pub mod launcher;
pub mod reference;
pub mod repository;
pub mod scan;
pub mod serving;
pub mod snapshot;
mod text;

pub use crate::changes::ChangeClassification;
pub use crate::divergence::DivergenceCount;
pub use crate::error::RepoError;
pub use crate::reference::{Attachment, ReferenceDescriptor, ReferenceKind};
pub use crate::repository::{query, resolve, RepositoryHandle};
pub use crate::snapshot::{BranchState, StatusSnapshot};
