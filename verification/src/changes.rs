//! Classification of pending changes.
//!
//! A status entry is the set of status flags that git reports for one path,
//! held as the bits of a `u32`.  Five counters classify those flags; one entry
//! may raise several counters, so the counters count flags, not paths.

use vstd::prelude::*;

verus! {

/// The path is new in the index.
pub const INDEX_NEW: u32 = 0x0001;

/// The path is modified in the index.
pub const INDEX_MODIFIED: u32 = 0x0002;

/// The path is deleted from the index.
pub const INDEX_DELETED: u32 = 0x0004;

/// The path is renamed in the index.
pub const INDEX_RENAMED: u32 = 0x0008;

/// The path changed its type in the index.
pub const INDEX_TYPECHANGE: u32 = 0x0010;

/// The path is new in the working tree, that is untracked.
pub const WT_NEW: u32 = 0x0080;

/// The path is modified in the working tree.
pub const WT_MODIFIED: u32 = 0x0100;

/// The path is deleted from the working tree.
pub const WT_DELETED: u32 = 0x0200;

/// The path is unmerged.
pub const CONFLICTED: u32 = 0x8000;

/// Whether `entry` has at least one bit of `flag` set.
pub open spec fn has_flag(entry: u32, flag: u32) -> bool {
    entry & flag != 0
}

/// An entry counts as staged when the index differs from HEAD in any way.
pub open spec fn is_staged(entry: u32) -> bool {
    ||| has_flag(entry, INDEX_NEW)
    ||| has_flag(entry, INDEX_MODIFIED)
    ||| has_flag(entry, INDEX_DELETED)
    ||| has_flag(entry, INDEX_RENAMED)
    ||| has_flag(entry, INDEX_TYPECHANGE)
}

/// An entry counts as modified when the working tree has changed the file.
pub open spec fn is_modified(entry: u32) -> bool {
    has_flag(entry, WT_MODIFIED)
}

/// An entry counts as deleted when the working tree lacks the file.
pub open spec fn is_deleted(entry: u32) -> bool {
    has_flag(entry, WT_DELETED)
}

/// An entry counts as untracked when the file is new in the working tree.
pub open spec fn is_untracked(entry: u32) -> bool {
    has_flag(entry, WT_NEW)
}

/// An entry counts as conflicted when the path is unmerged.
pub open spec fn is_conflicted(entry: u32) -> bool {
    has_flag(entry, CONFLICTED)
}

/// The mathematical value of a [`ChangeClassification`]: five natural numbers.
pub struct ChangeCounts {
    pub staged: nat,
    pub modified: nat,
    pub deleted: nat,
    pub untracked: nat,
    pub conflicted: nat,
}

impl ChangeCounts {
    /// No change of any category.
    pub open spec fn zero() -> ChangeCounts {
        ChangeCounts { staged: 0, modified: 0, deleted: 0, untracked: 0, conflicted: 0 }
    }

    /// The sum of two counts, category by category.
    pub open spec fn plus(self, other: ChangeCounts) -> ChangeCounts {
        ChangeCounts {
            staged: self.staged + other.staged,
            modified: self.modified + other.modified,
            deleted: self.deleted + other.deleted,
            untracked: self.untracked + other.untracked,
            conflicted: self.conflicted + other.conflicted,
        }
    }
}

/// One for a condition that holds, nothing for one that does not.
pub open spec fn one_if(holds: bool) -> nat {
    if holds {
        1
    } else {
        0
    }
}

/// What one status entry adds to the counters: one to each counter whose
/// flags it carries.  No other flag adds anything.
pub open spec fn contribution(entry: u32) -> ChangeCounts {
    ChangeCounts {
        staged: one_if(is_staged(entry)),
        modified: one_if(is_modified(entry)),
        deleted: one_if(is_deleted(entry)),
        untracked: one_if(is_untracked(entry)),
        conflicted: one_if(is_conflicted(entry)),
    }
}

/// What a list of status entries amounts to: the sum of what its entries
/// add.
pub open spec fn tally(entries: Seq<u32>) -> ChangeCounts
    decreases entries.len(),
{
    if entries.len() == 0 {
        ChangeCounts::zero()
    } else {
        tally(entries.drop_last()).plus(contribution(entries.last()))
    }
}

/// Counters of pending changes, by category.
#[derive(Clone, Copy, Debug, PartialEq, Eq, Structural)]
pub struct ChangeClassification {
    pub staged: usize,
    pub modified: usize,
    pub deleted: usize,
    pub untracked: usize,
    pub conflicted: usize,
}

impl View for ChangeClassification {
    type V = ChangeCounts;

    open spec fn view(&self) -> ChangeCounts {
        ChangeCounts {
            staged: self.staged as nat,
            modified: self.modified as nat,
            deleted: self.deleted as nat,
            untracked: self.untracked as nat,
            conflicted: self.conflicted as nat,
        }
    }
}

/// Taking one entry out of a list takes out of the tally what that entry
/// added.
pub proof fn lemma_tally_remove(entries: Seq<u32>, at: int)
    requires
        0 <= at < entries.len(),
    ensures
        tally(entries) == tally(entries.remove(at)).plus(contribution(entries[at])),
    decreases entries.len(),
{
    let rest = entries.remove(at);
    if at == entries.len() - 1 {
        assert(rest == entries.drop_last());
    } else {
        lemma_tally_remove(entries.drop_last(), at);
        assert(rest.drop_last() == entries.drop_last().remove(at));
        assert(rest.last() == entries.last());
    }
}

/// The classification is independent of the order in which the entries are
/// visited: two lists that hold the same entries equally often, in whatever
/// order, have the same tally.
pub proof fn lemma_tally_order_independent(a: Seq<u32>, b: Seq<u32>)
    requires
        a.to_multiset() == b.to_multiset(),
    ensures
        tally(a) == tally(b),
    decreases a.len(),
{
    broadcast use vstd::seq_lib::group_to_multiset_ensures;

    if a.len() == 0 {
        assert(a.to_multiset().len() == a.len());
        assert(b.to_multiset().len() == b.len());
    } else {
        let x = a.last();
        assert(a.drop_last().push(x) == a);
        assert(b.to_multiset().count(x) > 0);
        assert(b.contains(x));
        let at = choose|at: int| 0 <= at < b.len() && b[at] == x;
        assert(a.drop_last().to_multiset() == b.remove(at).to_multiset()) by {
            assert(a.to_multiset() == a.drop_last().to_multiset().insert(x));
            assert(b.remove(at).to_multiset() == b.to_multiset().remove(x));
            assert(a.drop_last().to_multiset().insert(x).remove(x)
                =~= a.drop_last().to_multiset());
        }
        lemma_tally_order_independent(a.drop_last(), b.remove(at));
        lemma_tally_remove(b, at);
    }
}

/// Whether `entry` has a bit of `flag` set.
pub fn entry_has(entry: u32, flag: u32) -> (set: bool)
    ensures
        set == has_flag(entry, flag),
{
    entry & flag != 0
}

impl ChangeClassification {
    /// The classification of a tree without pending changes.
    pub fn zero() -> (c: ChangeClassification)
        ensures
            c@ == ChangeCounts::zero(),
    {
        ChangeClassification { staged: 0, modified: 0, deleted: 0, untracked: 0, conflicted: 0 }
    }

    /// Classifies every entry of `entries` in one pass.  No counter exceeds
    /// the number of entries.
    pub fn of_entries(entries: &[u32]) -> (c: ChangeClassification)
        ensures
            c@ == tally(entries@),
            c.staged <= entries.len() && c.modified <= entries.len() && c.deleted
                <= entries.len() && c.untracked <= entries.len() && c.conflicted <= entries.len(),
    {
        let mut c = ChangeClassification::zero();
        let mut i: usize = 0;
        while i < entries.len()
            invariant
                i <= entries.len(),
                c@ == tally(entries@.take(i as int)),
                c.staged <= i && c.modified <= i && c.deleted <= i && c.untracked <= i
                    && c.conflicted <= i,
            decreases entries.len() - i,
        {
            let entry: u32 = entries[i];
            proof {
                let seen = entries@.take(i as int);
                let next = entries@.take(i + 1);
                assert(next.drop_last() == seen);
                assert(next.last() == entry);
            }
            if entry_has(entry, INDEX_NEW) || entry_has(entry, INDEX_MODIFIED) || entry_has(
                entry,
                INDEX_DELETED,
            ) || entry_has(entry, INDEX_RENAMED) || entry_has(entry, INDEX_TYPECHANGE) {
                c.staged = c.staged + 1;
            }
            if entry_has(entry, WT_NEW) {
                c.untracked = c.untracked + 1;
            }
            if entry_has(entry, WT_MODIFIED) {
                c.modified = c.modified + 1;
            }
            if entry_has(entry, WT_DELETED) {
                c.deleted = c.deleted + 1;
            }
            if entry_has(entry, CONFLICTED) {
                c.conflicted = c.conflicted + 1;
            }
            i = i + 1;
        }
        assert(entries@.take(i as int) == entries@);
        c
    }
}

} // verus!
