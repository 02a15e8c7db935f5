//! The open repository and what is read from it.
//!
//! Everything that `git2` computes is handed to the rest of the crate as
//! plain values.  The functions that call `git2` are thin and state no more
//! than the calls themselves promise; no proof reaches into them.

use crate::changes::{tally, ChangeClassification};
use crate::divergence::{DivergenceCount, TrackingEvidence};
use crate::error::RepoError;
use crate::reference::{HeadEvidence, ReferenceDescriptor, ReferenceKind};
use crate::snapshot::{SnapshotModel, StatusSnapshot};
use vstd::prelude::*;
use vstd::string::*;

verus! {

/// `git2::Repository`, an open repository.
#[verifier::external_type_specification]
#[verifier::external_body]
pub struct ExRepository(git2::Repository);

/// `git2::Reference`, a reference that was read from a repository.
#[verifier::external_type_specification]
#[verifier::external_body]
pub struct ExReference<'repo>(git2::Reference<'repo>);

/// `git2::Branch`, a reference that is known to be a branch.
#[verifier::external_type_specification]
#[verifier::external_body]
pub struct ExBranch<'repo>(git2::Branch<'repo>);

/// `git2::Tag`, a tag object.
#[verifier::external_type_specification]
#[verifier::external_body]
pub struct ExTag<'repo>(git2::Tag<'repo>);

/// `git2::Statuses`, the list of status entries of a repository.
#[verifier::external_type_specification]
#[verifier::external_body]
pub struct ExStatuses<'repo>(git2::Statuses<'repo>);

/// `git2::Oid`, the identifier of an object.
#[verifier::external_type_specification]
#[verifier::external_body]
pub struct ExOid(git2::Oid);

/// `git2::Error`, the error of every fallible call into `git2`.
#[verifier::external_type_specification]
#[verifier::external_body]
pub struct ExGitError(git2::Error);

/// The status flags of the entries of a status list, in the order of the
/// list, each entry as the bits of its flags.  A status list is made once and
/// does not change, so its entries are a function of the list.
pub uninterp spec fn status_entries(statuses: &git2::Statuses) -> Seq<u32>;

/// `git2::Repository::open`.  Whether a repository is found depends on what
/// is on disk, so nothing is claimed of the result.
#[verifier::external_body]
fn open_repository(path: &str) -> Result<git2::Repository, git2::Error> {
    git2::Repository::open(path)
}

/// `git2::Repository::head`.  Nothing is claimed of the result.
#[verifier::external_body]
fn head_reference<'r>(repo: &'r git2::Repository) -> Result<git2::Reference<'r>, git2::Error> {
    repo.head()
}

/// `git2::Error::code`, told apart only as far as the crate needs: whether
/// the error says that HEAD names a branch without commits.
#[verifier::external_body]
fn failure_is_unborn(failure: &git2::Error) -> bool {
    match failure.code() {
        git2::ErrorCode::UnbornBranch => true,
        _ => false,
    }
}

/// `git2::Error::message`, as an owned string.
#[verifier::external_body]
fn failure_message(failure: &git2::Error) -> String {
    failure.message().to_string()
}

/// `git2::Reference::shorthand`, as an owned string; `None` where the short
/// name is not valid UTF-8.
#[verifier::external_body]
fn reference_shorthand(reference: &git2::Reference) -> Option<String> {
    match reference.shorthand() {
        Some(name) => Some(name.to_string()),
        None => None,
    }
}

/// `git2::Reference::is_tag`.
#[verifier::external_body]
fn reference_is_tag(reference: &git2::Reference) -> bool {
    reference.is_tag()
}

/// `git2::Reference::is_branch`.
#[verifier::external_body]
fn reference_is_branch(reference: &git2::Reference) -> bool {
    reference.is_branch()
}

/// `git2::Reference::peel_to_tag`.  Nothing is claimed of the result.
#[verifier::external_body]
fn reference_peel_to_tag<'r>(reference: &git2::Reference<'r>) -> Result<
    git2::Tag<'r>,
    git2::Error,
> {
    reference.peel_to_tag()
}

/// `git2::Tag::name`, as an owned string; `None` where the name is not valid
/// UTF-8.
#[verifier::external_body]
fn tag_name(tag: &git2::Tag) -> Option<String> {
    match tag.name() {
        Some(name) => Some(name.to_string()),
        None => None,
    }
}

/// `git2::Reference::target`: the object that a direct reference points at.
#[verifier::external_body]
fn reference_target(reference: &git2::Reference) -> Option<git2::Oid> {
    reference.target()
}

/// `git2::Repository::find_branch`, for local branches.  Nothing is claimed
/// of the result.
#[verifier::external_body]
fn find_local_branch<'r>(repo: &'r git2::Repository, name: &str) -> Result<
    git2::Branch<'r>,
    git2::Error,
> {
    repo.find_branch(name, git2::BranchType::Local)
}

/// `git2::Branch::upstream`.  Nothing is claimed of the result.
#[verifier::external_body]
fn branch_upstream<'r>(branch: &git2::Branch<'r>) -> Result<git2::Branch<'r>, git2::Error> {
    branch.upstream()
}

/// `git2::Branch::get`: the reference that the branch is.
#[verifier::external_body]
fn branch_reference<'a, 'r>(branch: &'a git2::Branch<'r>) -> &'a git2::Reference<'r> {
    branch.get()
}

/// `git2::Repository::graph_ahead_behind`.  The counts come from a walk of
/// the commit graph on disk, so nothing is claimed of them.
#[verifier::external_body]
fn graph_ahead_behind(repo: &git2::Repository, local: git2::Oid, upstream: git2::Oid) -> Result<
    (usize, usize),
    git2::Error,
> {
    repo.graph_ahead_behind(local, upstream)
}

/// `git2::Repository::statuses`, with the default options.  Nothing is
/// claimed of the result.
#[verifier::external_body]
fn repository_statuses<'r>(repo: &'r git2::Repository) -> Result<
    git2::Statuses<'r>,
    git2::Error,
> {
    repo.statuses(None)
}

/// `git2::Statuses::iter`, with `git2::StatusEntry::status` and
/// `git2::Status::bits` on each entry: the flags of every entry of the list,
/// in the order of the list.  The contract gives them their name and claims
/// no more.
#[verifier::external_body]
fn statuses_flags(statuses: &git2::Statuses) -> (flags: Vec<u32>)
    ensures
        flags@ == status_entries(statuses),
{
    statuses.iter().map(|entry| entry.status().bits()).collect()
}

/// A repository that was opened for one status query.
pub struct RepositoryHandle {
    repo: git2::Repository,
}

/// The name of the tag object that a tag was peeled to, where it was.
fn peeled_tag_name(peeled: Result<git2::Tag, git2::Error>) -> (name: Option<String>)
    ensures
        peeled is Err ==> name is None,
{
    match peeled {
        Ok(tag) => tag_name(&tag),
        Err(_) => None,
    }
}

/// What there is to see of a HEAD that was read.  Its short name is read
/// first; what is made of it, and of what is read after it, is stated where
/// each reading is taken in.
fn evidence_of_reference(head: &git2::Reference) -> (evidence: HeadEvidence)
    ensures
        evidence is Unnamed || evidence is Named,
        evidence matches HeadEvidence::Named { is_tag, tag_name, .. } ==> (tag_name is Some
            ==> is_tag),
{
    let shorthand = reference_shorthand(head);
    evidence_of_shorthand(head, shorthand)
}

/// What a HEAD amounts to whose short name was read as `shorthand`: without
/// a short name it is unnamed, with one it is named by it.
fn evidence_of_shorthand(head: &git2::Reference, shorthand: Option<String>) -> (evidence:
    HeadEvidence)
    ensures
        match shorthand {
            None => evidence is Unnamed,
            Some(name) => evidence matches HeadEvidence::Named { shorthand: s, is_tag, tag_name, .. }
                && s@ == name@ && (tag_name is Some ==> is_tag),
        },
{
    match shorthand {
        None => HeadEvidence::Unnamed,
        Some(shorthand) => {
            let is_tag = reference_is_tag(head);
            let is_branch = reference_is_branch(head);
            evidence_of_kind(head, shorthand, is_tag, is_branch)
        },
    }
}

/// What a HEAD amounts to that has the short name `shorthand` and was found
/// to be a tag, a branch or neither.  The tag object is asked for only where
/// HEAD is a tag.
fn evidence_of_kind(head: &git2::Reference, shorthand: String, is_tag: bool, is_branch: bool) -> (evidence:
    HeadEvidence)
    ensures
        evidence matches HeadEvidence::Named { shorthand: s, is_tag: t, is_branch: b, tag_name }
            && s@ == shorthand@ && t == is_tag && b == is_branch && (tag_name is Some ==> is_tag),
{
    let tag_name = if is_tag {
        peeled_tag_name(reference_peel_to_tag(head))
    } else {
        None
    };
    HeadEvidence::Named { shorthand, is_tag, is_branch, tag_name }
}

/// What an attempt to read HEAD amounts to.  A failure is told apart only
/// by whether it says that HEAD is unborn.
fn evidence_of_head(found: Result<git2::Reference, git2::Error>) -> (evidence: HeadEvidence)
    ensures
        found is Err <==> (evidence is Unborn || evidence is Unreadable),
        evidence matches HeadEvidence::Named { is_tag, tag_name, .. } ==> (tag_name is Some
            ==> is_tag),
{
    match found {
        Err(failure) => {
            if failure_is_unborn(&failure) {
                HeadEvidence::Unborn
            } else {
                HeadEvidence::Unreadable { diagnostic: failure_message(&failure) }
            }
        },
        Ok(head) => evidence_of_reference(&head),
    }
}

/// What a walk of the commit graph amounts to: its counts, or its failure.
fn tracking_of_walk(walked: Result<(usize, usize), git2::Error>) -> (evidence: TrackingEvidence)
    ensures
        match walked {
            Ok((ahead, behind)) => evidence == (TrackingEvidence::Counted { ahead, behind }),
            Err(_) => evidence is WalkFailed,
        },
{
    match walked {
        Ok((ahead, behind)) => TrackingEvidence::Counted { ahead, behind },
        Err(failure) => TrackingEvidence::WalkFailed { diagnostic: failure_message(&failure) },
    }
}

/// What the two tips amount to.  The graph is walked only where both point
/// at an object.
fn tracking_of_tips(
    repo: &git2::Repository,
    ours: Option<git2::Oid>,
    theirs: Option<git2::Oid>,
) -> (evidence: TrackingEvidence)
    ensures
        (ours is None || theirs is None) <==> evidence is TipUnresolved,
        evidence is TipUnresolved || evidence is WalkFailed || evidence is Counted,
{
    match (ours, theirs) {
        (Some(ours), Some(theirs)) => tracking_of_walk(graph_ahead_behind(repo, ours, theirs)),
        _ => TrackingEvidence::TipUnresolved,
    }
}

/// What the lookup of the upstream of `local` amounts to.  A lookup that
/// fails, for whatever reason, is an upstream that is not there.
fn tracking_of_upstream(
    repo: &git2::Repository,
    local: &git2::Branch,
    upstream: Result<git2::Branch, git2::Error>,
) -> (evidence: TrackingEvidence)
    ensures
        upstream is Err <==> evidence is NoUpstream,
        !(evidence is BranchMissing),
{
    match upstream {
        Err(_) => TrackingEvidence::NoUpstream,
        Ok(upstream) => {
            let ours = reference_target(branch_reference(local));
            let theirs = reference_target(branch_reference(&upstream));
            tracking_of_tips(repo, ours, theirs)
        },
    }
}

/// What the lookup of a local branch amounts to.
fn tracking_of_branch(repo: &git2::Repository, found: Result<git2::Branch, git2::Error>) -> (evidence:
    TrackingEvidence)
    ensures
        found is Err <==> evidence is BranchMissing,
{
    match found {
        Err(failure) => TrackingEvidence::BranchMissing { diagnostic: failure_message(&failure) },
        Ok(local) => {
            let upstream = branch_upstream(&local);
            tracking_of_upstream(repo, &local, upstream)
        },
    }
}

/// Classifies the entries of a status list in one pass.
fn classify_statuses(statuses: &git2::Statuses) -> (c: ChangeClassification)
    ensures
        c@ == tally(status_entries(statuses)),
{
    let flags = statuses_flags(statuses);
    ChangeClassification::of_entries(flags.as_slice())
}

/// What an attempt to list the status entries amounts to: the tally of the
/// list, or the failure to get one.
fn classification_of(listed: Result<git2::Statuses, git2::Error>) -> (r: Result<
    ChangeClassification,
    RepoError,
>)
    ensures
        match listed {
            Ok(statuses) => r matches Ok(c) && c@ == tally(status_entries(&statuses)),
            Err(_) => r matches Err(e) && e is StatusFailure,
        },
{
    match listed {
        Ok(statuses) => Ok(classify_statuses(&statuses)),
        Err(failure) => {
            let diagnostic = failure_message(&failure);
            Err(RepoError::status_failure(diagnostic.as_str()))
        },
    }
}

/// What an attempt to open a repository amounts to: a handle on it, or the
/// failure of a path that holds none.
fn handle_of(opened: Result<git2::Repository, git2::Error>) -> (r: Result<
    RepositoryHandle,
    RepoError,
>)
    ensures
        opened is Ok <==> r is Ok,
        r matches Err(e) ==> e is NotARepository,
{
    match opened {
        Ok(repo) => Ok(RepositoryHandle { repo }),
        Err(failure) => {
            let diagnostic = failure_message(&failure);
            Err(RepoError::not_a_repository(diagnostic.as_str()))
        },
    }
}

impl RepositoryHandle {
    /// Opens the repository at `path`.  Every failure to open one is
    /// [`RepoError::NotARepository`], with the diagnostic of the attempt in
    /// its message.
    pub fn open(path: &str) -> (r: Result<RepositoryHandle, RepoError>)
        ensures
            r matches Err(e) ==> e is NotARepository,
    {
        handle_of(open_repository(path))
    }

    /// Resolves HEAD to its descriptor.  A repository without commits
    /// resolves to an unborn HEAD; the only failure is
    /// [`RepoError::Unresolvable`].
    pub fn resolve(&self) -> (r: Result<ReferenceDescriptor, RepoError>)
        ensures
            r matches Ok(d) ==> d@.wf(),
            r matches Err(e) ==> e is Unresolvable,
    {
        ReferenceDescriptor::from_evidence(evidence_of_head(head_reference(&self.repo)))
    }

    /// Counts how far `reference` has diverged from its upstream.
    ///
    /// Anything but a branch has not diverged, and no call is made for it.
    /// The only failure is [`RepoError::Divergence`].
    pub fn divergence(&self, reference: &ReferenceDescriptor) -> (r: Result<
        DivergenceCount,
        RepoError,
    >)
        ensures
            !(reference@.kind is Branch) ==> r == Ok::<DivergenceCount, RepoError>(
                DivergenceCount::none(),
            ),
            r matches Err(e) ==> e is Divergence,
    {
        match reference.kind() {
            ReferenceKind::Branch => {
                let found = find_local_branch(&self.repo, reference.name());
                let evidence = tracking_of_branch(&self.repo, found);
                DivergenceCount::from_evidence(reference.name(), evidence)
            },
            _ => Ok(DivergenceCount::zero()),
        }
    }

    /// Lists the status entries once and classifies them.  The only failure
    /// is [`RepoError::StatusFailure`].
    pub fn classify(&self) -> (r: Result<ChangeClassification, RepoError>)
        ensures
            r matches Err(e) ==> e is StatusFailure,
    {
        classification_of(repository_statuses(&self.repo))
    }

    /// Takes the snapshot of the repository: resolves HEAD, counts the
    /// divergence where HEAD is a branch, and classifies the pending changes,
    /// in this order and from this one handle.  The first failure ends the
    /// query.
    pub fn snapshot(&self) -> (r: Result<StatusSnapshot, RepoError>)
        ensures
            r matches Ok(s) ==> s@.wf(),
            r matches Err(e) ==> !(e is NotARepository),
    {
        let resolved = self.resolve();
        self.snapshot_of_reference(resolved)
    }

    /// The snapshot for a HEAD that was resolved, or the failure to resolve
    /// it, handed on as it is.
    fn snapshot_of_reference(&self, resolved: Result<ReferenceDescriptor, RepoError>) -> (r:
        Result<StatusSnapshot, RepoError>)
        ensures
            resolved matches Err(e) ==> r == Err::<StatusSnapshot, RepoError>(e),
            r matches Ok(s) ==> s@.wf() && resolved is Ok && s@.reference == resolved->Ok_0@,
            r matches Err(e) ==> resolved == Err::<ReferenceDescriptor, RepoError>(e)
                || e is Divergence || e is StatusFailure,
    {
        match resolved {
            Err(e) => Err(e),
            Ok(reference) => {
                let diverged = self.divergence(&reference);
                self.snapshot_of_divergence(reference, diverged)
            },
        }
    }

    /// The snapshot for a divergence that was counted, or the failure to
    /// count it, handed on as it is.
    fn snapshot_of_divergence(
        &self,
        reference: ReferenceDescriptor,
        diverged: Result<DivergenceCount, RepoError>,
    ) -> (r: Result<StatusSnapshot, RepoError>)
        ensures
            diverged matches Err(e) ==> r == Err::<StatusSnapshot, RepoError>(e),
            r matches Ok(s) ==> diverged is Ok && s@ == SnapshotModel::of(
                reference@,
                diverged->Ok_0,
                s@.changes,
            ) && s@.wf(),
            r matches Err(e) ==> diverged == Err::<DivergenceCount, RepoError>(e)
                || e is StatusFailure,
    {
        match diverged {
            Err(e) => Err(e),
            Ok(divergence) => StatusSnapshot::complete(reference, divergence, self.classify()),
        }
    }
}

/// Opens the repository at `path` and resolves its HEAD.
///
/// The failure to open is [`RepoError::NotARepository`], the failure to
/// resolve [`RepoError::Unresolvable`]; a repository without commits
/// resolves to an unborn HEAD.
pub fn resolve(path: &str) -> (r: Result<ReferenceDescriptor, RepoError>)
    ensures
        r matches Ok(d) ==> d@.wf(),
        r matches Err(e) ==> e is NotARepository || e is Unresolvable,
{
    match RepositoryHandle::open(path) {
        Ok(handle) => handle.resolve(),
        Err(e) => Err(e),
    }
}

/// The snapshot of what was opened, or the failure to open it.
pub fn query_opened(opened: Result<RepositoryHandle, RepoError>) -> (r: Result<
    StatusSnapshot,
    RepoError,
>)
    ensures
        opened matches Err(e) ==> r == Err::<StatusSnapshot, RepoError>(e),
        r matches Ok(s) ==> s@.wf(),
{
    match opened {
        Ok(handle) => handle.snapshot(),
        Err(e) => Err(e),
    }
}

/// Answers where the worktree at `path` stands.
///
/// A path that holds no repository gives [`RepoError::NotARepository`]; a
/// repository without commits gives the snapshot of an unborn HEAD.
pub fn query(path: &str) -> (r: Result<StatusSnapshot, RepoError>)
    ensures
        r matches Ok(s) ==> s@.wf(),
{
    query_opened(RepositoryHandle::open(path))
}

} // verus!
