use vstd::prelude::*;

verus! {

/// The ban state of an identity: a flag and an optional expiry (seconds).
#[derive(Clone, Copy, Debug, PartialEq, Eq, Structural)]
pub struct PersonBan {
    pub person_id: i32,
    pub banned: bool,
    pub ban_expires: Option<i64>,
}

/// A community-scoped ban with an optional expiry (seconds).
#[derive(Clone, Copy, Debug, PartialEq, Eq, Structural)]
pub struct CommunityPersonBan {
    pub community_id: i32,
    pub person_id: i32,
    pub expires: Option<i64>,
}

/// A banned identity whose expiry lies strictly before `now`.
pub open spec fn ban_lapsed(p: PersonBan, now: i64) -> bool {
    p.banned && p.ban_expires.is_some() && p.ban_expires.unwrap() < now
}

/// The identity after the sweep: a lapsed ban is lifted, the expiry is kept.
pub open spec fn swept_person(p: PersonBan, now: i64) -> PersonBan {
    if ban_lapsed(p, now) {
        PersonBan { banned: false, ..p }
    } else {
        p
    }
}

pub open spec fn swept_persons(s: Seq<PersonBan>, now: i64) -> Seq<PersonBan> {
    s.map_values(|p: PersonBan| swept_person(p, now))
}

/// A community ban whose expiry lies strictly before `now`.
pub open spec fn community_ban_expired(b: CommunityPersonBan, now: i64) -> bool {
    b.expires.is_some() && b.expires.unwrap() < now
}

/// The community bans that survive the sweep, in their order.
pub open spec fn kept_community_bans(s: Seq<CommunityPersonBan>, now: i64) -> Seq<CommunityPersonBan>
    decreases s.len(),
{
    if s.len() == 0 {
        Seq::empty()
    } else {
        let rest = kept_community_bans(s.drop_last(), now);
        if community_ban_expired(s.last(), now) {
            rest
        } else {
            rest.push(s.last())
        }
    }
}

impl PersonBan {
    pub fn is_lapsed(&self, now: i64) -> (r: bool)
        ensures
            r == ban_lapsed(*self, now),
    {
        match self.ban_expires {
            Some(e) => self.banned && e < now,
            None => false,
        }
    }
}

impl CommunityPersonBan {
    pub fn is_expired(&self, now: i64) -> (r: bool)
        ensures
            r == community_ban_expired(*self, now),
    {
        match self.expires {
            Some(e) => e < now,
            None => false,
        }
    }
}

/// Lifts every ban whose expiry has passed and deletes every expired
/// community ban; everything else is left as it was.
pub fn update_banned_when_expired(
    persons: &mut Vec<PersonBan>,
    community_bans: &mut Vec<CommunityPersonBan>,
    now: i64,
)
    ensures
        final(persons)@ == swept_persons(old(persons)@, now),
        final(community_bans)@ == kept_community_bans(old(community_bans)@, now),
{
    let ghost before = persons@;
    let n = persons.len();
    let mut i: usize = 0;
    while i < n
        invariant
            n == before.len(),
            persons@.len() == n,
            0 <= i <= n,
            forall|j: int| 0 <= j < i ==> #[trigger] persons@[j] == swept_person(before[j], now),
            forall|j: int| i <= j < n ==> #[trigger] persons@[j] == before[j],
        decreases n - i,
    {
        let p = persons[i];
        if p.is_lapsed(now) {
            persons.set(i, PersonBan { banned: false, ..p });
        }
        i = i + 1;
    }
    assert(persons@ =~= swept_persons(before, now));

    let ghost old_bans = community_bans@;
    let m = community_bans.len();
    let mut kept: Vec<CommunityPersonBan> = Vec::new();
    let mut k: usize = 0;
    while k < m
        invariant
            m == old_bans.len(),
            community_bans@ == old_bans,
            0 <= k <= m,
            kept@ == kept_community_bans(old_bans.subrange(0, k as int), now),
        decreases m - k,
    {
        let b = community_bans[k];
        assert(old_bans.subrange(0, k + 1).drop_last() =~= old_bans.subrange(0, k as int));
        if !b.is_expired(now) {
            kept.push(b);
        }
        k = k + 1;
    }
    assert(old_bans.subrange(0, m as int) =~= old_bans);
    *community_bans = kept;
}

proof fn lemma_kept_bans_are_live(s: Seq<CommunityPersonBan>, now: i64)
    ensures
        forall|j: int|
            0 <= j < kept_community_bans(s, now).len() ==> !community_ban_expired(
                #[trigger] kept_community_bans(s, now)[j],
                now,
            ),
    decreases s.len(),
{
    if s.len() > 0 {
        let rest = kept_community_bans(s.drop_last(), now);
        lemma_kept_bans_are_live(s.drop_last(), now);
        assert forall|j: int|
            0 <= j < kept_community_bans(s, now).len() implies !community_ban_expired(
            #[trigger] kept_community_bans(s, now)[j],
            now,
        ) by {
            if j < rest.len() {
                assert(kept_community_bans(s, now)[j] == rest[j]);
            }
        }
    }
}

proof fn lemma_kept_bans_of_live(s: Seq<CommunityPersonBan>, now: i64)
    requires
        forall|j: int| 0 <= j < s.len() ==> !community_ban_expired(#[trigger] s[j], now),
    ensures
        kept_community_bans(s, now) == s,
    decreases s.len(),
{
    if s.len() > 0 {
        lemma_kept_bans_of_live(s.drop_last(), now);
        assert(s.drop_last().push(s.last()) =~= s);
    }
}

/// Sweeping twice at the same instant changes nothing the first sweep did
/// not: no identity and no community ban differs after the second sweep.
pub proof fn lemma_ban_sweep_idempotent(
    persons: Seq<PersonBan>,
    community_bans: Seq<CommunityPersonBan>,
    now: i64,
)
    ensures
        swept_persons(swept_persons(persons, now), now) == swept_persons(persons, now),
        kept_community_bans(kept_community_bans(community_bans, now), now) == kept_community_bans(
            community_bans,
            now,
        ),
{
    assert(swept_persons(swept_persons(persons, now), now) =~= swept_persons(persons, now));
    lemma_kept_bans_are_live(community_bans, now);
    lemma_kept_bans_of_live(kept_community_bans(community_bans, now), now);
}

/// After a sweep no identity is still flagged banned with an expiry in the
/// past, and no community ban with an expiry in the past remains.
pub proof fn lemma_ban_sweep_leaves_no_lapsed_ban(
    persons: Seq<PersonBan>,
    community_bans: Seq<CommunityPersonBan>,
    now: i64,
)
    ensures
        forall|j: int|
            0 <= j < persons.len() ==> !ban_lapsed(#[trigger] swept_persons(persons, now)[j], now),
        forall|j: int|
            0 <= j < kept_community_bans(community_bans, now).len() ==> !community_ban_expired(
                #[trigger] kept_community_bans(community_bans, now)[j],
                now,
            ),
{
    lemma_kept_bans_are_live(community_bans, now);
}

} // verus!
