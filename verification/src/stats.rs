//! The standing of a user, derived from the counter table when asked for.

use crate::record::CounterRow;
use vstd::prelude::*;

verus! {

/// The standing of one user among all users that were ever counted.
#[derive(Debug, Clone, Copy, PartialEq, Eq, Structural)]
pub struct UserStat {
    /// The user.
    pub user_id: i64,
    /// How many results the user has sent.
    pub count: u32,
    /// How many users have a counter.
    pub total_users: u32,
    /// How many users have a count no higher than this user's, the user
    /// included.
    pub lower_users: u32,
}

/// How many of `rows` have a count of `count` or less.
pub open spec fn at_or_below(rows: Seq<CounterRow>, count: u32) -> nat {
    rows.filter(|r: CounterRow| r.count <= count).len()
}

/// The standing of the user of row `i` among `rows`.
pub open spec fn stat_at(rows: Seq<CounterRow>, i: int) -> UserStat {
    UserStat {
        user_id: rows[i].user_id,
        count: rows[i].count,
        total_users: rows.len() as u32,
        lower_users: at_or_below(rows, rows[i].count) as u32,
    }
}

/// Whether row `i` is the first row of `rows` that belongs to `user_id`.
pub open spec fn is_row_of(rows: Seq<CounterRow>, user_id: i64, i: int) -> bool {
    &&& 0 <= i < rows.len()
    &&& rows[i].user_id == user_id
    &&& forall|k: int| 0 <= k < i ==> (#[trigger] rows[k]).user_id != user_id
}

/// The standing of `user_id` among `rows`: that of the first row that
/// belongs to the user, nothing where no row does.
pub open spec fn derived(rows: Seq<CounterRow>, user_id: i64) -> Option<UserStat> {
    if exists|i: int| is_row_of(rows, user_id, i) {
        Some(stat_at(rows, choose|i: int| is_row_of(rows, user_id, i)))
    } else {
        None
    }
}

/// A table has one first row of a user at most.
proof fn lemma_row_of_is_unique(rows: Seq<CounterRow>, user_id: i64, i: int, j: int)
    requires
        is_row_of(rows, user_id, i),
        is_row_of(rows, user_id, j),
    ensures
        i == j,
{
    if i < j {
        assert(rows[i].user_id != user_id);
    }
    if j < i {
        assert(rows[j].user_id != user_id);
    }
}

/// A derived standing belongs to the user asked for and is well formed.
pub proof fn lemma_derived_is_sound(rows: Seq<CounterRow>, user_id: i64)
    requires
        rows.len() <= u32::MAX,
    ensures
        derived(rows, user_id) matches Some(stat) ==> stat.user_id == user_id && stat.wf(),
{
    if exists|i: int| is_row_of(rows, user_id, i) {
        let i = choose|i: int| is_row_of(rows, user_id, i);
        lemma_stat_bounds(rows, i);
    }
}

impl UserStat {
    /// Whether the numbers can stand for a user among the counted: the user
    /// is one of those at or below its own count, who are among all users.
    pub open spec fn wf(&self) -> bool {
        1 <= self.lower_users <= self.total_users
    }

    /// The place of the user, 1 being the best: one more than the number of
    /// users with a higher count.
    pub open spec fn spec_rank(&self) -> int {
        self.total_users - self.lower_users + 1
    }

    /// The place of the user, 1 being the best. Users with the same count
    /// share the place.
    pub fn rank(&self) -> (r: u32)
        requires
            self.wf(),
        ensures
            r == self.spec_rank(),
            1 <= r <= self.total_users,
    {
        self.total_users - self.lower_users + 1
    }

    /// Derives the standing of `user_id` from the counter table `rows`:
    /// nothing where the user has no counter.
    pub fn derive(rows: &Vec<CounterRow>, user_id: i64) -> (r: Option<UserStat>)
        requires
            rows@.len() <= u32::MAX,
        ensures
            r == derived(rows@, user_id),
            match r {
                Some(stat) => exists|i: int|
                    is_row_of(rows@, user_id, i) && stat == stat_at(rows@, i),
                None => forall|i: int|
                    0 <= i < rows@.len() ==> (#[trigger] rows@[i]).user_id != user_id,
            },
            r matches Some(stat) ==> stat.wf() && stat.user_id == user_id,
    {
        let mut i: usize = 0;
        while i < rows.len() && rows[i].user_id != user_id
            invariant
                i <= rows@.len(),
                forall|k: int| 0 <= k < i ==> (#[trigger] rows@[k]).user_id != user_id,
            decreases rows@.len() - i,
        {
            i = i + 1;
        }
        if i == rows.len() {
            assert forall|k: int| !is_row_of(rows@, user_id, k) by {
                if 0 <= k < rows@.len() {
                    assert(rows@[k].user_id != user_id);
                }
            }
            return None;
        }
        let count = rows[i].count;
        let mut lower: u32 = 0;
        let mut j: usize = 0;
        proof {
            lemma_at_or_below_empty(count);
        }
        while j < rows.len()
            invariant
                j <= rows@.len() <= u32::MAX,
                lower == at_or_below(rows@.take(j as int), count),
                lower <= j,
            decreases rows@.len() - j,
        {
            proof {
                lemma_at_or_below_push(rows@.take(j as int), rows@[j as int], count);
                assert(rows@.take(j + 1) =~= rows@.take(j as int).push(rows@[j as int]));
            }
            if rows[j].count <= count {
                lower = lower + 1;
            }
            j = j + 1;
        }
        proof {
            assert(rows@.take(rows@.len() as int) =~= rows@);
            lemma_stat_bounds(rows@, i as int);
        }
        let stat = UserStat { user_id, count, total_users: rows.len() as u32, lower_users: lower };
        proof {
            assert(stat == stat_at(rows@, i as int));
            assert(is_row_of(rows@, user_id, i as int));
            let first = choose|k: int| is_row_of(rows@, user_id, k);
            lemma_row_of_is_unique(rows@, user_id, i as int, first);
        }
        Some(stat)
    }
}

/// No row of an empty table is at or below any count.
proof fn lemma_at_or_below_empty(count: u32)
    ensures
        at_or_below(Seq::<CounterRow>::empty(), count) == 0,
{
    reveal(Seq::filter);
}

/// One more row at the end of the table adds one to the rows at or below
/// `count` exactly when its own count is `count` or less.
proof fn lemma_at_or_below_push(rows: Seq<CounterRow>, row: CounterRow, count: u32)
    ensures
        at_or_below(rows.push(row), count) == at_or_below(rows, count) + if row.count <= count {
            1nat
        } else {
            0nat
        },
{
    reveal(Seq::filter);
    assert(rows.push(row).drop_last() =~= rows);
}

/// The user of a row is itself one of the users at or below its count, and
/// they are all among the counted: the derived standing is well formed.
pub proof fn lemma_stat_bounds(rows: Seq<CounterRow>, i: int)
    requires
        0 <= i < rows.len(),
    ensures
        1 <= at_or_below(rows, rows[i].count) <= rows.len(),
{
    let pred = |r: CounterRow| r.count <= rows[i].count;
    rows.lemma_filter_len(pred);
    rows.lemma_filter_contains(pred, i);
}

/// Raising the count raises, or keeps, the number of rows at or below it.
proof fn lemma_at_or_below_monotone(rows: Seq<CounterRow>, low: u32, high: u32)
    requires
        low <= high,
    ensures
        at_or_below(rows, low) <= at_or_below(rows, high),
    decreases rows.len(),
{
    if rows.len() == 0 {
        lemma_at_or_below_empty(low);
        lemma_at_or_below_empty(high);
    } else {
        let front = rows.drop_last();
        lemma_at_or_below_monotone(front, low, high);
        lemma_at_or_below_push(front, rows.last(), low);
        lemma_at_or_below_push(front, rows.last(), high);
        assert(front.push(rows.last()) =~= rows);
    }
}

/// Of two users of one table, the one whose count is no lower has a place
/// that is no worse; users with the same count share their place.
pub proof fn lemma_rank_follows_count(rows: Seq<CounterRow>, i: int, j: int)
    requires
        0 <= i < rows.len(),
        0 <= j < rows.len(),
        rows.len() <= u32::MAX,
        rows[i].count <= rows[j].count,
    ensures
        stat_at(rows, j).spec_rank() <= stat_at(rows, i).spec_rank(),
        rows[i].count == rows[j].count ==> stat_at(rows, j).spec_rank() == stat_at(
            rows,
            i,
        ).spec_rank(),
{
    lemma_stat_bounds(rows, i);
    lemma_stat_bounds(rows, j);
    lemma_at_or_below_monotone(rows, rows[i].count, rows[j].count);
}

} // verus!
