//! The identifiers that a snapshot of the archive does not hold yet.

use std::collections::BTreeSet;
use vstd::prelude::*;

verus! {

/// Whether `id` is a positive identifier that `excluded` does not hold.
pub open spec fn is_gap(excluded: Set<i32>, id: int) -> bool {
    1 <= id <= i32::MAX && !excluded.contains(id as i32)
}

/// Whether `ids` lists, in ascending order, exactly the gaps of `excluded`
/// from `from` up to, but not including, `to`.
pub open spec fn is_gap_run(excluded: Set<i32>, from: int, to: int, ids: Seq<i32>) -> bool {
    &&& forall|i: int|
        0 <= i < ids.len() ==> from <= #[trigger] ids[i] < to && is_gap(excluded, ids[i] as int)
    &&& forall|i: int, j: int| 0 <= i < j < ids.len() ==> ids[i] < ids[j]
    &&& forall|k: int| from <= k < to && is_gap(excluded, k) ==> ids.contains(k as i32)
}

/// The `i`-th identifier of an ascending run lies at least `i` above the
/// run's start.
proof fn lemma_run_floor(excluded: Set<i32>, from: int, to: int, ids: Seq<i32>, i: int)
    requires
        is_gap_run(excluded, from, to, ids),
        0 <= i < ids.len(),
    ensures
        from + i <= ids[i],
    decreases i,
{
    if i > 0 {
        lemma_run_floor(excluded, from, to, ids, i - 1);
    }
}

/// A run of gaps is no longer than the range it was taken from.
pub proof fn lemma_gap_run_len(excluded: Set<i32>, from: int, to: int, ids: Seq<i32>)
    requires
        is_gap_run(excluded, from, to, ids),
        from <= to,
    ensures
        ids.len() <= to - from,
{
    if ids.len() > 0 {
        lemma_run_floor(excluded, from, to, ids, ids.len() - 1);
    }
}

/// Ascending walk over the positive identifiers missing from a snapshot.
///
/// The snapshot is read when the walk is made; identifiers stored later are
/// not skipped. Make a new walk from a new snapshot to pick them up.
#[derive(Clone, Copy)]
pub struct SkippingIter<'a> {
    curr: i32,
    spent: bool,
    inner: &'a BTreeSet<i32>,
}

impl<'a> SkippingIter<'a> {
    #[verifier::type_invariant]
    spec fn inv(self) -> bool {
        1 <= self.curr
    }

    /// The identifiers that the walk leaves out.
    pub closed spec fn excluded(&self) -> Set<i32> {
        self.inner@
    }

    /// The least identifier the walk has not passed yet, or one more than the
    /// largest identifier once the walk is over.
    pub closed spec fn cursor(&self) -> int {
        if self.spent {
            i32::MAX + 1
        } else {
            self.curr as int
        }
    }

    /// Starts a walk at identifier 1 over the snapshot `inner`.
    pub fn new(inner: &'a BTreeSet<i32>) -> (it: Self)
        ensures
            it.excluded() == inner@,
            it.cursor() == 1,
    {
        Self { curr: 1, spent: false, inner }
    }

    /// Hands out the least missing identifier at or after the cursor and moves
    /// the cursor past it; `None` once no such identifier is left.
    pub fn next(&mut self) -> (r: Option<i32>)
        ensures
            final(self).excluded() == old(self).excluded(),
            1 <= old(self).cursor() <= final(self).cursor() <= i32::MAX + 1,
            match r {
                Some(id) => {
                    &&& old(self).cursor() <= id
                    &&& is_gap(old(self).excluded(), id as int)
                    &&& forall|k: int|
                        old(self).cursor() <= k < id ==> !is_gap(old(self).excluded(), k)
                    &&& final(self).cursor() == id + 1
                },
                None => {
                    &&& forall|k: int| old(self).cursor() <= k ==> !is_gap(old(self).excluded(), k)
                    &&& final(self).cursor() == i32::MAX + 1
                },
            },
    {
        proof {
            use_type_invariant(&*self);
        }
        if self.spent {
            return None;
        }
        while self.inner.contains(&self.curr)
            invariant
                !self.spent,
                1 <= old(self).curr <= self.curr,
                self.inner == old(self).inner,
                !old(self).spent,
                forall|k: int| old(self).curr <= k < self.curr ==> !is_gap(self.inner@, k),
            decreases i32::MAX - self.curr,
        {
            if self.curr == i32::MAX {
                self.spent = true;
                return None;
            }
            self.curr += 1;
        }
        let ret = self.curr;
        if self.curr == i32::MAX {
            self.spent = true;
        } else {
            self.curr += 1;
        }
        Some(ret)
    }

    /// Hands out the next `n` missing identifiers in ascending order, fewer
    /// only when the walk ends first.
    pub fn next_batch(&mut self, n: usize) -> (ids: Vec<i32>)
        ensures
            final(self).excluded() == old(self).excluded(),
            1 <= old(self).cursor() <= final(self).cursor() <= i32::MAX + 1,
            ids@.len() <= n,
            ids@.len() < n ==> final(self).cursor() == i32::MAX + 1,
            n == 0 ==> final(self).cursor() == old(self).cursor(),
            is_gap_run(old(self).excluded(), old(self).cursor(), final(self).cursor(), ids@),
    {
        let mut ids: Vec<i32> = Vec::new();
        let mut over = false;
        let ghost excluded = self.excluded();
        let ghost start = self.cursor();
        proof {
            use_type_invariant(&*self);
        }
        while !over && ids.len() < n
            invariant
                self.excluded() == excluded,
                1 <= start <= self.cursor() <= i32::MAX + 1,
                ids@.len() <= n,
                over ==> self.cursor() == i32::MAX + 1,
                n == 0 ==> self.cursor() == start,
                is_gap_run(excluded, start, self.cursor(), ids@),
            decreases n - ids.len() + (if over { 0int } else { 1int }),
        {
            let ghost before = ids@;
            let ghost mid = self.cursor();
            match self.next() {
                Some(id) => {
                    ids.push(id);
                    proof {
                        assert(ids@[ids@.len() - 1] == id);
                        assert forall|k: int| start <= k < self.cursor() && is_gap(excluded, k)
                            implies ids@.contains(k as i32) by {
                            if k < mid {
                                let i = choose|i: int|
                                    0 <= i < before.len() && before[i] == k as i32;
                                assert(ids@[i] == k as i32);
                            }
                        }
                    }
                },
                None => {
                    over = true;
                },
            }
        }
        ids
    }
}

} // verus!
