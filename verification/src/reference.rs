//! The identity of HEAD: a branch, a tag, a detached commit, or nothing yet.

use crate::error::RepoError;
use vstd::prelude::*;
use vstd::string::*;

verus! {

/// What HEAD resolves to.
#[derive(Clone, Copy, Debug, PartialEq, Eq, Structural)]
pub enum ReferenceKind {
    /// A local branch.
    Branch,
    /// A tag.
    Tag,
    /// A commit that neither a branch nor a tag stands for.
    DetachedCommit,
    /// Nothing: the repository has no commit yet.
    Unborn,
}

/// Whether HEAD follows a branch or stands on a commit by itself.
#[derive(Clone, Copy, Debug, PartialEq, Eq, Structural)]
pub enum Attachment {
    /// HEAD is a symbolic reference to a branch.
    Attached,
    /// HEAD is not bound to a branch.
    Detached,
}

/// HEAD is attached exactly when it names a branch, born or not.
pub open spec fn attachment_of(kind: ReferenceKind) -> Attachment {
    match kind {
        ReferenceKind::Branch | ReferenceKind::Unborn => Attachment::Attached,
        ReferenceKind::Tag | ReferenceKind::DetachedCommit => Attachment::Detached,
    }
}

/// The mathematical value of a [`ReferenceDescriptor`].
pub struct ReferenceModel {
    pub kind: ReferenceKind,
    pub name: Seq<char>,
    pub attachment: Attachment,
}

impl ReferenceModel {
    /// The attachment follows from the kind, and only a branch or a tag has a
    /// name.
    pub open spec fn wf(self) -> bool {
        &&& self.attachment == attachment_of(self.kind)
        &&& (self.kind is Unborn || self.kind is DetachedCommit) ==> self.name.len() == 0
    }

    pub open spec fn branch(name: Seq<char>) -> ReferenceModel {
        ReferenceModel { kind: ReferenceKind::Branch, name, attachment: Attachment::Attached }
    }

    pub open spec fn tag(name: Seq<char>) -> ReferenceModel {
        ReferenceModel { kind: ReferenceKind::Tag, name, attachment: Attachment::Detached }
    }

    pub open spec fn detached() -> ReferenceModel {
        ReferenceModel {
            kind: ReferenceKind::DetachedCommit,
            name: Seq::empty(),
            attachment: Attachment::Detached,
        }
    }

    pub open spec fn unborn() -> ReferenceModel {
        ReferenceModel {
            kind: ReferenceKind::Unborn,
            name: Seq::empty(),
            attachment: Attachment::Attached,
        }
    }
}

/// The resolved identity of HEAD at the time of a query.
#[derive(Debug, PartialEq, Eq)]
pub struct ReferenceDescriptor {
    kind: ReferenceKind,
    name: String,
    attachment: Attachment,
}

impl View for ReferenceDescriptor {
    type V = ReferenceModel;

    closed spec fn view(&self) -> ReferenceModel {
        ReferenceModel { kind: self.kind, name: self.name@, attachment: self.attachment }
    }
}

impl Clone for ReferenceDescriptor {
    fn clone(&self) -> (d: ReferenceDescriptor)
        ensures
            d@ == self@,
    {
        proof {
            use_type_invariant(self);
        }
        ReferenceDescriptor {
            kind: self.kind,
            name: self.name.clone(),
            attachment: self.attachment,
        }
    }
}

impl ReferenceDescriptor {
    #[verifier::type_invariant]
    spec fn well_formed(self) -> bool {
        self@.wf()
    }

    /// HEAD on the local branch `name`.
    pub fn branch(name: String) -> (d: ReferenceDescriptor)
        ensures
            d@ == ReferenceModel::branch(name@),
    {
        ReferenceDescriptor { kind: ReferenceKind::Branch, name, attachment: Attachment::Attached }
    }

    /// HEAD on the tag `name`.
    pub fn tag(name: String) -> (d: ReferenceDescriptor)
        ensures
            d@ == ReferenceModel::tag(name@),
    {
        ReferenceDescriptor { kind: ReferenceKind::Tag, name, attachment: Attachment::Detached }
    }

    /// HEAD on a commit without a branch or a tag.
    pub fn detached() -> (d: ReferenceDescriptor)
        ensures
            d@ == ReferenceModel::detached(),
    {
        ReferenceDescriptor {
            kind: ReferenceKind::DetachedCommit,
            name: String::new(),
            attachment: Attachment::Detached,
        }
    }

    /// HEAD of a repository without commits.
    pub fn unborn() -> (d: ReferenceDescriptor)
        ensures
            d@ == ReferenceModel::unborn(),
    {
        ReferenceDescriptor {
            kind: ReferenceKind::Unborn,
            name: String::new(),
            attachment: Attachment::Attached,
        }
    }
}

/// What was seen of HEAD in a repository.
#[derive(Clone, Debug, PartialEq, Eq)]
pub enum HeadEvidence {
    /// HEAD names a branch that has no commit yet.
    Unborn,
    /// HEAD could not be read; `diagnostic` says why.
    Unreadable { diagnostic: String },
    /// HEAD was read, but its short name is not valid UTF-8.
    Unnamed,
    /// HEAD was read.  `tag_name` is the name of the tag object that HEAD
    /// peels to, where HEAD is a tag and such an object could be read.
    Named { shorthand: String, is_tag: bool, is_branch: bool, tag_name: Option<String> },
}

impl HeadEvidence {
    /// The descriptor that the evidence amounts to, if it amounts to one.
    ///
    /// A tag takes the name of its tag object and falls back to the short
    /// name of HEAD; a detached commit has no name.
    pub open spec fn descriptor(self) -> Option<ReferenceModel> {
        match self {
            HeadEvidence::Unborn => Some(ReferenceModel::unborn()),
            HeadEvidence::Unreadable { .. } => None,
            HeadEvidence::Unnamed => None,
            HeadEvidence::Named { shorthand, is_tag, is_branch, tag_name } => if is_tag {
                Some(
                    ReferenceModel::tag(
                        match tag_name {
                            Some(n) => n@,
                            None => shorthand@,
                        },
                    ),
                )
            } else if is_branch {
                Some(ReferenceModel::branch(shorthand@))
            } else {
                Some(ReferenceModel::detached())
            },
        }
    }

    /// The message of the failure that the evidence amounts to otherwise.
    pub open spec fn failure(self) -> Seq<char> {
        match self {
            HeadEvidence::Unreadable { diagnostic } => "Could not resolve HEAD: "@ + diagnostic@,
            _ => "Could not get branchname!"@,
        }
    }
}

impl ReferenceDescriptor {
    /// Decides what HEAD is from what was seen of it.
    ///
    /// A repository without commits is no failure: it has the descriptor of
    /// an unborn HEAD.
    pub fn from_evidence(evidence: HeadEvidence) -> (r: Result<ReferenceDescriptor, RepoError>)
        ensures
            match r {
                Ok(d) => evidence.descriptor() == Some(d@) && d@.wf(),
                Err(e) => evidence.descriptor() is None && e is Unresolvable && e.text()
                    == evidence.failure(),
            },
    {
        match evidence {
            HeadEvidence::Unborn => Ok(ReferenceDescriptor::unborn()),
            HeadEvidence::Unreadable { diagnostic } => {
                let mut message = String::from_str("Could not resolve HEAD: ");
                message.append(diagnostic.as_str());
                Err(RepoError::Unresolvable(message))
            },
            HeadEvidence::Unnamed => Err(
                RepoError::Unresolvable(String::from_str("Could not get branchname!")),
            ),
            HeadEvidence::Named { shorthand, is_tag, is_branch, tag_name } => {
                if is_tag {
                    match tag_name {
                        Some(n) => Ok(ReferenceDescriptor::tag(n)),
                        None => Ok(ReferenceDescriptor::tag(shorthand)),
                    }
                } else if is_branch {
                    Ok(ReferenceDescriptor::branch(shorthand))
                } else {
                    Ok(ReferenceDescriptor::detached())
                }
            },
        }
    }

    /// What HEAD resolves to.
    pub fn kind(&self) -> (k: ReferenceKind)
        ensures
            k == self@.kind,
            self@.wf(),
    {
        proof {
            use_type_invariant(self);
        }
        self.kind
    }

    /// The short name of the branch or the tag; empty otherwise.
    pub fn name(&self) -> (n: &str)
        ensures
            n@ == self@.name,
            self@.wf(),
    {
        proof {
            use_type_invariant(self);
        }
        self.name.as_str()
    }

    /// Whether HEAD follows a branch.
    pub fn attachment(&self) -> (a: Attachment)
        ensures
            a == self@.attachment,
            self@.wf(),
    {
        proof {
            use_type_invariant(self);
        }
        self.attachment
    }
}

} // verus!
