//! Picking the worktrees out of the entries of a directory.

use vstd::prelude::*;

verus! {

/// What the caller saw of one entry of the directory that it listed.
#[derive(Clone, Debug, PartialEq, Eq)]
pub struct DirectoryEntry {
    /// The file name of the entry.
    pub name: String,
    /// The path of the entry.
    pub path: String,
    /// Whether the entry is a directory.
    pub is_dir: bool,
    /// Whether the entry holds something named `.git`.
    pub has_git: bool,
}

/// A worktree that was found.
#[derive(Clone, Debug, PartialEq, Eq)]
pub struct DirectoryResult {
    pub name: String,
    pub path: String,
}

/// The mathematical value of a [`DirectoryResult`]: its name and its path.
pub struct Worktree {
    pub name: Seq<char>,
    pub path: Seq<char>,
}

impl View for DirectoryResult {
    type V = Worktree;

    open spec fn view(&self) -> Worktree {
        Worktree { name: self.name@, path: self.path@ }
    }
}

impl DirectoryEntry {
    /// An entry is a worktree when it is a directory that holds `.git`.
    pub open spec fn is_worktree(self) -> bool {
        self.is_dir && self.has_git
    }

    /// The worktree that the entry stands for.
    pub open spec fn worktree(self) -> Worktree {
        Worktree { name: self.name@, path: self.path@ }
    }
}

/// The worktrees among `entries`, in the order of the entries.
pub open spec fn worktrees(entries: Seq<DirectoryEntry>) -> Seq<Worktree>
    decreases entries.len(),
{
    if entries.len() == 0 {
        Seq::empty()
    } else if entries.last().is_worktree() {
        worktrees(entries.drop_last()).push(entries.last().worktree())
    } else {
        worktrees(entries.drop_last())
    }
}

/// Picks the worktrees out of the entries of a directory, keeping their
/// order.
pub fn scan_directory(entries: &[DirectoryEntry]) -> (found: Vec<DirectoryResult>)
    ensures
        found@.map_values(|r: DirectoryResult| r@) == worktrees(entries@),
{
    let mut found: Vec<DirectoryResult> = Vec::new();
    let mut at: usize = 0;
    while at < entries.len()
        invariant
            at <= entries.len(),
            found@.map_values(|r: DirectoryResult| r@) == worktrees(entries@.take(at as int)),
        decreases entries.len() - at,
    {
        let entry = &entries[at];
        proof {
            assert(entries@.take(at + 1).drop_last() == entries@.take(at as int));
            assert(entries@.take(at + 1).last() == *entry);
        }
        if entry.is_dir && entry.has_git {
            let ghost before = found@;
            let result = DirectoryResult { name: entry.name.clone(), path: entry.path.clone() };
            found.push(result);
            assert(found@.map_values(|r: DirectoryResult| r@) =~= before.map_values(
                |r: DirectoryResult| r@,
            ).push(entry.worktree()));
        }
        at = at + 1;
    }
    assert(entries@.take(at as int) == entries@);
    found
}

} // verus!
