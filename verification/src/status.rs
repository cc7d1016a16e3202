//! Counting the paths of a status scan into four categories.
//!
//! The categories overlap: one path may count in several of them, or in
//! none.

use crate::backend::{status_list_flags, status_list_get, status_list_len, statuses};
use crate::error::ClassificationError;
use crate::flags::PathFlags;
use crate::text::{decimal, push_decimal};
use vstd::prelude::*;
use vstd::string::*;

verus! {

/// How many paths of the working copy are staged, conflicted, changed and
/// untracked.
#[derive(Debug, Clone, Copy, PartialEq, Eq)]
pub struct Status {
    pub staged: usize,
    pub conflicts: usize,
    pub changed: usize,
    pub untracked: usize,
}

/// The four counts as natural numbers.
pub struct Counts {
    pub staged: nat,
    pub conflicts: nat,
    pub changed: nat,
    pub untracked: nat,
}

impl View for Status {
    type V = Counts;

    open spec fn view(&self) -> Counts {
        Counts {
            staged: self.staged as nat,
            conflicts: self.conflicts as nat,
            changed: self.changed as nat,
            untracked: self.untracked as nat,
        }
    }
}

impl Counts {
    /// No path counted yet.
    pub open spec fn zero() -> Counts {
        Counts { staged: 0, conflicts: 0, changed: 0, untracked: 0 }
    }

    /// The counts after one more path, with the flags `flags`, is counted:
    /// each category that the path falls in grows by one.
    pub open spec fn record(self, flags: PathFlags) -> Counts {
        Counts {
            staged: self.staged + if flags.staged() { 1nat } else { 0nat },
            conflicts: self.conflicts + if flags.conflicted() { 1nat } else { 0nat },
            changed: self.changed + if flags.changed() { 1nat } else { 0nat },
            untracked: self.untracked + if flags.untracked() { 1nat } else { 0nat },
        }
    }

    /// The four counts as text: staged, conflicts, changed, untracked, in
    /// decimal, with one space between them.
    pub open spec fn text(self) -> Seq<char> {
        decimal(self.staged) + " "@ + decimal(self.conflicts) + " "@ + decimal(self.changed) + " "@
            + decimal(self.untracked)
    }
}

/// The counts of a scan that has reported `entries`: in each category, the
/// number of entries that fall in it.
pub open spec fn tally(entries: Seq<PathFlags>) -> Counts {
    Counts {
        staged: entries.filter(|flags: PathFlags| flags.staged()).len(),
        conflicts: entries.filter(|flags: PathFlags| flags.conflicted()).len(),
        changed: entries.filter(|flags: PathFlags| flags.changed()).len(),
        untracked: entries.filter(|flags: PathFlags| flags.untracked()).len(),
    }
}

/// The entries of a status list as flag sets.
pub open spec fn entries_of(list: &git2::Statuses<'_>) -> Seq<PathFlags> {
    status_list_flags(list).map_values(|bits: u32| PathFlags { bits })
}

/// A scan without entries counts nothing.
pub proof fn lemma_tally_empty()
    ensures
        tally(Seq::empty()) == Counts::zero(),
{
    let none = Seq::<PathFlags>::empty();
    none.lemma_filter_len(|flags: PathFlags| flags.staged());
    none.lemma_filter_len(|flags: PathFlags| flags.conflicted());
    none.lemma_filter_len(|flags: PathFlags| flags.changed());
    none.lemma_filter_len(|flags: PathFlags| flags.untracked());
}

/// One more entry at the end of a scan adds one to each category that the
/// entry falls in, and leaves the others as they were.
pub proof fn lemma_tally_push(entries: Seq<PathFlags>, flags: PathFlags)
    ensures
        tally(entries.push(flags)) == tally(entries).record(flags),
{
    entries.lemma_filter_len_push(|flags: PathFlags| flags.staged(), flags);
    entries.lemma_filter_len_push(|flags: PathFlags| flags.conflicted(), flags);
    entries.lemma_filter_len_push(|flags: PathFlags| flags.changed(), flags);
    entries.lemma_filter_len_push(|flags: PathFlags| flags.untracked(), flags);
}

/// No category counts more paths than the scan has reported.
pub proof fn lemma_tally_bounded(entries: Seq<PathFlags>)
    ensures
        tally(entries).staged <= entries.len(),
        tally(entries).conflicts <= entries.len(),
        tally(entries).changed <= entries.len(),
        tally(entries).untracked <= entries.len(),
{
    entries.lemma_filter_len(|flags: PathFlags| flags.staged());
    entries.lemma_filter_len(|flags: PathFlags| flags.conflicted());
    entries.lemma_filter_len(|flags: PathFlags| flags.changed());
    entries.lemma_filter_len(|flags: PathFlags| flags.untracked());
}

/// Among the entries of two scans that report the same entries, each as
/// often as the other, as many satisfy `pred` in one as in the other.
proof fn lemma_filter_len_permutation(
    a: Seq<PathFlags>,
    b: Seq<PathFlags>,
    pred: spec_fn(PathFlags) -> bool,
)
    requires
        a.to_multiset() == b.to_multiset(),
    ensures
        a.filter(pred).len() == b.filter(pred).len(),
    decreases a.len(),
{
    broadcast use vstd::seq_lib::group_to_multiset_ensures;

    if a.len() == 0 {
        assert(b.len() == 0) by {
            assert(a.to_multiset().len() == a.len());
            assert(b.to_multiset().len() == b.len());
        }
        assert(a =~= b);
    } else {
        let last = a.last();
        assert(a.to_multiset().count(last) > 0);
        let i = b.index_of(last);
        let front = b.subrange(0, i);
        let back = b.subrange(i + 1, b.len() as int);
        assert(a.drop_last() =~= a.remove(a.len() - 1));
        lemma_filter_len_permutation(a.drop_last(), b.remove(i), pred);
        assert(a =~= a.drop_last().push(last));
        a.drop_last().lemma_filter_len_push(pred, last);
        assert(b =~= front.push(last) + back);
        assert(b.remove(i) =~= front + back);
        front.lemma_filter_len_push(pred, last);
        Seq::filter_distributes_over_add(front.push(last), back, pred);
        Seq::filter_distributes_over_add(front, back, pred);
    }
}

/// The counts do not depend on the order in which a scan reports its
/// entries: two scans that report the same entries, each as often as the
/// other, count the same.
pub proof fn lemma_tally_order_independent(a: Seq<PathFlags>, b: Seq<PathFlags>)
    requires
        a.to_multiset() == b.to_multiset(),
    ensures
        tally(a) == tally(b),
{
    lemma_filter_len_permutation(a, b, |flags: PathFlags| flags.staged());
    lemma_filter_len_permutation(a, b, |flags: PathFlags| flags.conflicted());
    lemma_filter_len_permutation(a, b, |flags: PathFlags| flags.changed());
    lemma_filter_len_permutation(a, b, |flags: PathFlags| flags.untracked());
}

/// The counts of two scans taken together are the sums of their counts,
/// whichever of the two comes first.
pub proof fn lemma_tally_concat(a: Seq<PathFlags>, b: Seq<PathFlags>)
    ensures
        tally(a + b).staged == tally(a).staged + tally(b).staged,
        tally(a + b).conflicts == tally(a).conflicts + tally(b).conflicts,
        tally(a + b).changed == tally(a).changed + tally(b).changed,
        tally(a + b).untracked == tally(a).untracked + tally(b).untracked,
        tally(a + b) == tally(b + a),
{
    Seq::filter_distributes_over_add(a, b, |flags: PathFlags| flags.staged());
    Seq::filter_distributes_over_add(a, b, |flags: PathFlags| flags.conflicted());
    Seq::filter_distributes_over_add(a, b, |flags: PathFlags| flags.changed());
    Seq::filter_distributes_over_add(a, b, |flags: PathFlags| flags.untracked());
    Seq::filter_distributes_over_add(b, a, |flags: PathFlags| flags.staged());
    Seq::filter_distributes_over_add(b, a, |flags: PathFlags| flags.conflicted());
    Seq::filter_distributes_over_add(b, a, |flags: PathFlags| flags.changed());
    Seq::filter_distributes_over_add(b, a, |flags: PathFlags| flags.untracked());
}

/// The categories do not exclude each other: a path that is staged and
/// conflicted at once adds one to both counts of the scan that reports it.
pub proof fn lemma_staged_and_conflicted_counts_twice(entries: Seq<PathFlags>, flags: PathFlags)
    requires
        flags.staged(),
        flags.conflicted(),
    ensures
        tally(entries.push(flags)).staged == tally(entries).staged + 1,
        tally(entries.push(flags)).conflicts == tally(entries).conflicts + 1,
{
    lemma_tally_push(entries, flags);
}

impl Status {
    /// Counts the entries of a scan.
    pub fn from_flags(entries: &[PathFlags]) -> (status: Status)
        ensures
            status@ == tally(entries@),
    {
        let mut status = Status { staged: 0, conflicts: 0, changed: 0, untracked: 0 };
        let mut i: usize = 0;
        proof {
            lemma_tally_empty();
            assert(entries@.take(0) =~= Seq::empty());
        }
        while i < entries.len()
            invariant
                i <= entries.len(),
                status@ == tally(entries@.take(i as int)),
            decreases entries.len() - i,
        {
            let flags = entries[i];
            proof {
                lemma_tally_bounded(entries@.take(i as int));
                lemma_tally_push(entries@.take(i as int), flags);
                assert(entries@.take(i + 1) =~= entries@.take(i as int).push(flags));
            }
            if flags.is_conflicted() {
                status.conflicts = status.conflicts + 1;
            }
            if flags.is_changed() {
                status.changed = status.changed + 1;
            }
            if flags.is_untracked() {
                status.untracked = status.untracked + 1;
            }
            if flags.is_staged() {
                status.staged = status.staged + 1;
            }
            i = i + 1;
        }
        assert(entries@.take(i as int) =~= entries@);
        status
    }

    /// Counts the entries of a status list.
    pub fn from_statuses(list: &git2::Statuses<'_>) -> (status: Status)
        ensures
            status@ == tally(entries_of(list)),
    {
        let len = status_list_len(list);
        let mut entries: Vec<PathFlags> = Vec::new();
        let mut i: usize = 0;
        while i < len
            invariant
                i <= len,
                len == status_list_flags(list).len(),
                entries@ == entries_of(list).take(i as int),
            decreases len - i,
        {
            if let Some(bits) = status_list_get(list, i) {
                entries.push(PathFlags::from_bits(bits));
            }
            assert(entries@ =~= entries_of(list).take(i + 1));
            i = i + 1;
        }
        assert(entries@ =~= entries_of(list));
        Status::from_flags(entries.as_slice())
    }

    /// Scans the working copy of `repo`, untracked files included, and
    /// counts what the scan reports. What is counted is what the scan found
    /// on disk; where the scan fails, so does this, with a
    /// `BackendQueryFailure`.
    pub fn from_repo(repo: &git2::Repository) -> (outcome: Result<Status, ClassificationError>)
        ensures
            outcome matches Err(error) ==> error is BackendQueryFailure,
    {
        match statuses(repo, true) {
            Ok(list) => Ok(Status::from_statuses(&list)),
            Err(error) => Err(ClassificationError::from_backend(&error)),
        }
    }

    /// The four counts as text: staged, conflicts, changed, untracked, in
    /// decimal, with one space between them.
    pub fn display_stat(&self) -> (text: String)
        ensures
            text@ == self@.text(),
    {
        let mut text = String::new();
        push_decimal(&mut text, self.staged);
        text.append(" ");
        push_decimal(&mut text, self.conflicts);
        text.append(" ");
        push_decimal(&mut text, self.changed);
        text.append(" ");
        push_decimal(&mut text, self.untracked);
        assert(text@ =~= self@.text());
        text
    }
}

} // verus!
