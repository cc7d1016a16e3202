//! The change flags that a status scan reports for one path.

use vstd::prelude::*;

verus! {

/// The path is modified in the index, relative to the head commit.
pub const INDEX_MODIFIED: u32 = 0x0002;

/// The path is deleted from the index.
pub const INDEX_DELETED: u32 = 0x0004;

/// The path is renamed in the index.
pub const INDEX_RENAMED: u32 = 0x0008;

/// The path has changed its file type in the index.
pub const INDEX_TYPECHANGE: u32 = 0x0010;

/// The path is present in the working copy and not tracked.
pub const WT_NEW: u32 = 0x0080;

/// The path is modified in the working copy, relative to the index.
pub const WT_MODIFIED: u32 = 0x0100;

/// The path is deleted from the working copy.
pub const WT_DELETED: u32 = 0x0200;

/// The path has changed its file type in the working copy.
pub const WT_TYPECHANGE: u32 = 0x0400;

/// The path is renamed in the working copy.
pub const WT_RENAMED: u32 = 0x0800;

/// The path is in an unresolved merge conflict.
pub const CONFLICTED: u32 = 0x8000;

/// Every flag that makes a path count as staged.
pub const INDEX_CHANGES: u32 = INDEX_MODIFIED | INDEX_DELETED | INDEX_TYPECHANGE | INDEX_RENAMED;

/// Every flag that makes a path count as changed.
pub const WT_CHANGES: u32 = WT_MODIFIED | WT_DELETED | WT_TYPECHANGE | WT_RENAMED;

/// The set of change flags of one path, one bit per flag.
#[derive(Clone, Copy, Debug, PartialEq, Eq)]
pub struct PathFlags {
    pub bits: u32,
}

impl PathFlags {
    /// Whether `flag`, a single bit, is set.
    pub open spec fn has(self, flag: u32) -> bool {
        self.bits & flag == flag
    }

    /// The path is in an unresolved merge conflict.
    pub open spec fn conflicted(self) -> bool {
        self.has(CONFLICTED)
    }

    /// The working copy differs from the index at this path: modified,
    /// deleted, type-changed or renamed.
    pub open spec fn changed(self) -> bool {
        self.has(WT_MODIFIED) || self.has(WT_DELETED) || self.has(WT_TYPECHANGE) || self.has(
            WT_RENAMED,
        )
    }

    /// The path is new in the working copy and not yet tracked.
    pub open spec fn untracked(self) -> bool {
        self.has(WT_NEW)
    }

    /// The index differs from the head commit at this path: modified,
    /// deleted, type-changed or renamed.
    pub open spec fn staged(self) -> bool {
        self.has(INDEX_MODIFIED) || self.has(INDEX_DELETED) || self.has(INDEX_TYPECHANGE)
            || self.has(INDEX_RENAMED)
    }

    /// The flag set with exactly the bits of `bits`.
    pub fn from_bits(bits: u32) -> (flags: PathFlags)
        ensures
            flags.bits == bits,
    {
        PathFlags { bits }
    }

    /// Whether any flag of `mask` is set.
    pub fn intersects(self, mask: u32) -> (hit: bool)
        ensures
            hit == (self.bits & mask != 0),
    {
        self.bits & mask != 0
    }

    /// Whether the path counts as conflicted.
    pub fn is_conflicted(self) -> (hit: bool)
        ensures
            hit == self.conflicted(),
    {
        let bits = self.bits;
        assert((bits & CONFLICTED != 0) == (bits & CONFLICTED == CONFLICTED)) by (bit_vector);
        self.intersects(CONFLICTED)
    }

    /// Whether the path counts as changed.
    pub fn is_changed(self) -> (hit: bool)
        ensures
            hit == self.changed(),
    {
        let bits = self.bits;
        assert((bits & WT_CHANGES != 0) == (bits & WT_MODIFIED == WT_MODIFIED || bits & WT_DELETED
            == WT_DELETED || bits & WT_TYPECHANGE == WT_TYPECHANGE || bits & WT_RENAMED
            == WT_RENAMED)) by (bit_vector);
        self.intersects(WT_CHANGES)
    }

    /// Whether the path counts as untracked.
    pub fn is_untracked(self) -> (hit: bool)
        ensures
            hit == self.untracked(),
    {
        let bits = self.bits;
        assert((bits & WT_NEW != 0) == (bits & WT_NEW == WT_NEW)) by (bit_vector);
        self.intersects(WT_NEW)
    }

    /// Whether the path counts as staged.
    pub fn is_staged(self) -> (hit: bool)
        ensures
            hit == self.staged(),
    {
        let bits = self.bits;
        assert((bits & INDEX_CHANGES != 0) == (bits & INDEX_MODIFIED == INDEX_MODIFIED || bits
            & INDEX_DELETED == INDEX_DELETED || bits & INDEX_TYPECHANGE == INDEX_TYPECHANGE || bits
            & INDEX_RENAMED == INDEX_RENAMED)) by (bit_vector);
        self.intersects(INDEX_CHANGES)
    }
}

} // verus!
