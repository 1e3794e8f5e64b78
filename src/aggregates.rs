use vstd::prelude::*;

verus! {

/// Length of the recent window of the cheap recomputation: one week, in seconds.
pub const RECENT_WINDOW: i64 = 604800;

/// A ranked aggregate row (post, comment or community). `magnitude` is the
/// score, or the subscriber count of a community; `newest_activity` is the
/// time of the newest comment, which only posts rank by (`hot_rank_active`).
#[derive(Clone, Copy, Debug, PartialEq, Eq, Structural)]
pub struct AggregateRow {
    pub id: i32,
    pub magnitude: i64,
    pub published: i64,
    pub newest_activity: i64,
    pub hot_rank: i32,
    pub hot_rank_active: i32,
}

/// The ranks that the store's ranking function gave one row: by publish
/// time, and by newest activity.
#[derive(Clone, Copy, Debug, PartialEq, Eq, Structural)]
pub struct RankPair {
    pub hot_rank: i32,
    pub hot_rank_active: i32,
}

/// The arguments handed to the ranking function for one row.
#[derive(Clone, Copy, Debug, PartialEq, Eq, Structural)]
pub struct RankArguments {
    pub magnitude: i64,
    pub reference: i64,
}

/// Whether a row takes part in a recomputation at `now`: every row in full
/// mode, only rows published within the last week in recent mode.
pub open spec fn in_recompute_window(published: i64, now: i64, recent_only: bool) -> bool {
    !recent_only || published as int > now as int - RECENT_WINDOW as int
}

/// The row after a recomputation: the ranks are replaced inside the window,
/// and nothing else changes.
pub open spec fn recomputed(r: AggregateRow, fresh: RankPair, now: i64, recent_only: bool) -> AggregateRow {
    if in_recompute_window(r.published, now, recent_only) {
        AggregateRow { hot_rank: fresh.hot_rank, hot_rank_active: fresh.hot_rank_active, ..r }
    } else {
        r
    }
}

/// Whether a row takes part in a recomputation at `now`.
pub fn in_window(published: i64, now: i64, recent_only: bool) -> (r: bool)
    ensures
        r == in_recompute_window(published, now, recent_only),
{
    if !recent_only {
        true
    } else if now < i64::MIN + RECENT_WINDOW {
        true
    } else {
        published > now - RECENT_WINDOW
    }
}

impl AggregateRow {
    /// The arguments of the rank by publish time.
    pub fn rank_arguments(&self) -> (a: RankArguments)
        ensures
            a == (RankArguments { magnitude: self.magnitude, reference: self.published }),
    {
        RankArguments { magnitude: self.magnitude, reference: self.published }
    }

    /// The arguments of the rank by newest activity.
    pub fn active_rank_arguments(&self) -> (a: RankArguments)
        ensures
            a == (RankArguments { magnitude: self.magnitude, reference: self.newest_activity }),
    {
        RankArguments { magnitude: self.magnitude, reference: self.newest_activity }
    }
}

/// Stores the fresh ranks of every row inside the window; rows outside it,
/// and every other field, are left as they were.
pub fn update_hot_ranks(rows: &mut Vec<AggregateRow>, fresh: &Vec<RankPair>, now: i64, recent_only: bool)
    requires
        old(rows)@.len() == fresh@.len(),
    ensures
        final(rows)@.len() == old(rows)@.len(),
        forall|i: int|
            0 <= i < old(rows)@.len() ==> #[trigger] final(rows)@[i] == recomputed(
                old(rows)@[i],
                fresh@[i],
                now,
                recent_only,
            ),
{
    let ghost before = rows@;
    let n = rows.len();
    let mut i: usize = 0;
    while i < n
        invariant
            n == before.len(),
            n == fresh@.len(),
            rows@.len() == n,
            0 <= i <= n,
            forall|j: int|
                0 <= j < i ==> #[trigger] rows@[j] == recomputed(before[j], fresh@[j], now, recent_only),
            forall|j: int| i <= j < n ==> #[trigger] rows@[j] == before[j],
        decreases n - i,
    {
        let r = rows[i];
        if in_window(r.published, now, recent_only) {
            let f = fresh[i];
            rows.set(i, AggregateRow { hot_rank: f.hot_rank, hot_rank_active: f.hot_rank_active, ..r });
        }
        i = i + 1;
    }
}

/// In recent mode a row published a week or more before `now` keeps its
/// ranks, and a row published within the week takes the fresh ones.
pub proof fn lemma_recent_window(r: AggregateRow, fresh: RankPair, now: i64)
    ensures
        r.published as int <= now as int - RECENT_WINDOW as int ==> recomputed(r, fresh, now, true) == r,
        r.published as int > now as int - RECENT_WINDOW as int ==> recomputed(r, fresh, now, true).hot_rank
            == fresh.hot_rank && recomputed(r, fresh, now, true).hot_rank_active == fresh.hot_rank_active,
{
}

} // verus!
