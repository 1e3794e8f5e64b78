use vstd::prelude::*;

verus! {

/// A row of the activity log, with its timestamp in seconds.
#[derive(Clone, Copy, Debug, PartialEq, Eq, Structural)]
pub struct ActivityRow {
    pub id: i64,
    pub published: i64,
}

/// A row is stale when it was published strictly before the horizon.
pub open spec fn is_stale(r: ActivityRow, horizon: i64) -> bool {
    r.published < horizon
}

/// The rows that the pruner keeps, in their order.
pub open spec fn retained(s: Seq<ActivityRow>, horizon: i64) -> Seq<ActivityRow>
    decreases s.len(),
{
    if s.len() == 0 {
        Seq::empty()
    } else {
        let rest = retained(s.drop_last(), horizon);
        if is_stale(s.last(), horizon) {
            rest
        } else {
            rest.push(s.last())
        }
    }
}

/// Deletes every row published before `horizon`, the instant six calendar
/// months before now; rows at or after it stay, in their order.
pub fn clear_old_activities(log: &mut Vec<ActivityRow>, horizon: i64)
    ensures
        final(log)@ == retained(old(log)@, horizon),
{
    let ghost before = log@;
    let n = log.len();
    let mut kept: Vec<ActivityRow> = Vec::new();
    let mut i: usize = 0;
    while i < n
        invariant
            n == before.len(),
            log@ == before,
            0 <= i <= n,
            kept@ == retained(before.subrange(0, i as int), horizon),
        decreases n - i,
    {
        let r = log[i];
        assert(before.subrange(0, i + 1).drop_last() =~= before.subrange(0, i as int));
        if !(r.published < horizon) {
            kept.push(r);
        }
        i = i + 1;
    }
    assert(before.subrange(0, n as int) =~= before);
    *log = kept;
}

/// A row stays exactly when it is not stale: each retained row is one of the
/// old rows and is not stale, and each old row that is not stale is retained.
pub proof fn lemma_retained_members(s: Seq<ActivityRow>, horizon: i64)
    ensures
        forall|j: int|
            0 <= j < retained(s, horizon).len() ==> !is_stale(#[trigger] retained(s, horizon)[j], horizon)
                && s.contains(retained(s, horizon)[j]),
        forall|j: int|
            0 <= j < s.len() && !is_stale(#[trigger] s[j], horizon) ==> retained(s, horizon).contains(s[j]),
    decreases s.len(),
{
    if s.len() > 0 {
        let init = s.drop_last();
        lemma_retained_members(init, horizon);
        assert forall|j: int|
            0 <= j < retained(s, horizon).len() implies !is_stale(#[trigger] retained(s, horizon)[j], horizon)
            && s.contains(retained(s, horizon)[j]) by {
            let r = retained(s, horizon)[j];
            if j < retained(init, horizon).len() {
                assert(retained(init, horizon)[j] == r);
                let w = choose|w: int| 0 <= w < init.len() && init[w] == r;
                assert(s[w] == r);
            } else {
                assert(s[s.len() - 1] == r);
            }
        }
        assert forall|j: int| 0 <= j < s.len() && !is_stale(#[trigger] s[j], horizon) implies retained(
            s,
            horizon,
        ).contains(s[j]) by {
            if j < s.len() - 1 {
                assert(init[j] == s[j]);
                let w = choose|w: int|
                    0 <= w < retained(init, horizon).len() && retained(init, horizon)[w] == s[j];
                assert(retained(s, horizon)[w] == s[j]);
            } else {
                assert(retained(s, horizon)[retained(s, horizon).len() - 1] == s[j]);
            }
        }
    }
}

/// Pruning a second time with the same horizon deletes nothing further.
pub proof fn lemma_prune_idempotent(s: Seq<ActivityRow>, horizon: i64)
    ensures
        retained(retained(s, horizon), horizon) == retained(s, horizon),
    decreases s.len(),
{
    if s.len() > 0 {
        lemma_prune_idempotent(s.drop_last(), horizon);
        let rest = retained(s.drop_last(), horizon);
        if !is_stale(s.last(), horizon) {
            assert(rest.push(s.last()).drop_last() =~= rest);
        }
    }
}

} // verus!
