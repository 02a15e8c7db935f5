//! The ways in which a status query fails.

use vstd::prelude::*;
use vstd::string::*;

verus! {

/// A hard failure of a status query.  Each variant carries the message that
/// the caller shows for the path that was asked about.
#[derive(Clone, Debug, PartialEq, Eq)]
pub enum RepoError {
    /// The path holds no repository that can be opened.
    NotARepository(String),
    /// HEAD cannot be resolved, for a reason other than a repository that has
    /// no commit yet.
    Unresolvable(String),
    /// The branch or its upstream has no tip that resolves to a commit, or the
    /// walk of the commit graph failed.
    Divergence(String),
    /// The status entries could not be listed.
    StatusFailure(String),
}

impl RepoError {
    /// The message of the failure, as a sequence of characters.
    pub open spec fn text(self) -> Seq<char> {
        match self {
            RepoError::NotARepository(m) => m@,
            RepoError::Unresolvable(m) => m@,
            RepoError::Divergence(m) => m@,
            RepoError::StatusFailure(m) => m@,
        }
    }

    /// The failure to open a repository, from the diagnostic of the attempt.
    pub fn not_a_repository(diagnostic: &str) -> (e: RepoError)
        ensures
            e is NotARepository,
            e.text() == "Could not open repository: "@ + diagnostic@,
    {
        let mut message = String::from_str("Could not open repository: ");
        message.append(diagnostic);
        RepoError::NotARepository(message)
    }

    /// The failure to list the status entries, from the diagnostic of the
    /// attempt.
    pub fn status_failure(diagnostic: &str) -> (e: RepoError)
        ensures
            e is StatusFailure,
            e.text() == diagnostic@ + "statuses"@,
    {
        let mut message = String::from_str(diagnostic);
        message.append("statuses");
        RepoError::StatusFailure(message)
    }

    /// The message to show to the caller.
    pub fn message(&self) -> (m: &str)
        ensures
            m@ == self.text(),
    {
        match self {
            RepoError::NotARepository(m) => m.as_str(),
            RepoError::Unresolvable(m) => m.as_str(),
            RepoError::Divergence(m) => m.as_str(),
            RepoError::StatusFailure(m) => m.as_str(),
        }
    }
}

impl RepoError {
    /// The message alone, for a caller that transports text.
    pub fn into_message(self) -> (m: String)
        ensures
            m@ == self.text(),
    {
        match self {
            RepoError::NotARepository(m) => m,
            RepoError::Unresolvable(m) => m,
            RepoError::Divergence(m) => m,
            RepoError::StatusFailure(m) => m,
        }
    }
}

} // verus!
