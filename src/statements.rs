use vstd::prelude::*;
use vstd::string::StringExecFns;

verus! {

/// The four trailing windows of the active-actor counters.
#[derive(Clone, Copy, Debug, PartialEq, Eq, Structural)]
pub enum ActivityWindow {
    Day,
    Week,
    Month,
    HalfYear,
}

/// The interval literal of a window, as the store reads it.
pub open spec fn interval_of(w: ActivityWindow) -> Seq<char> {
    match w {
        ActivityWindow::Day => "1 day"@,
        ActivityWindow::Week => "1 week"@,
        ActivityWindow::Month => "1 month"@,
        ActivityWindow::HalfYear => "6 months"@,
    }
}

/// The suffix of the counter column that holds a window.
pub open spec fn column_suffix_of(w: ActivityWindow) -> Seq<char> {
    match w {
        ActivityWindow::Day => "day"@,
        ActivityWindow::Week => "week"@,
        ActivityWindow::Month => "month"@,
        ActivityWindow::HalfYear => "half_year"@,
    }
}

pub open spec fn site_active_statement_of(w: ActivityWindow) -> Seq<char> {
    "update site_aggregates set users_active_"@ + column_suffix_of(w)
        + " = (select * from site_aggregates_activity('"@ + interval_of(w) + "'))"@
}

pub open spec fn community_active_statement_of(w: ActivityWindow) -> Seq<char> {
    "update community_aggregates ca set users_active_"@ + column_suffix_of(w)
        + " = mv.count_ from community_aggregates_activity('"@ + interval_of(w)
        + "') mv where ca.community_id = mv.community_id_"@
}

/// The recount statements of one cycle: for each window in turn, the
/// site-wide one and then the per-community one.
pub open spec fn active_count_statements_of() -> Seq<Seq<char>> {
    seq![
        site_active_statement_of(ActivityWindow::Day),
        community_active_statement_of(ActivityWindow::Day),
        site_active_statement_of(ActivityWindow::Week),
        community_active_statement_of(ActivityWindow::Week),
        site_active_statement_of(ActivityWindow::Month),
        community_active_statement_of(ActivityWindow::Month),
        site_active_statement_of(ActivityWindow::HalfYear),
        community_active_statement_of(ActivityWindow::HalfYear),
    ]
}

/// The filter that restricts a recomputation to the last week.
pub open spec fn recent_filter_of(recent_only: bool) -> Seq<char> {
    if recent_only {
        " where published > now() - interval '1 week'"@
    } else {
        ""@
    }
}

/// The rank recomputation statements: posts, comments, communities.
pub open spec fn hot_rank_statements_of(recent_only: bool) -> Seq<Seq<char>> {
    seq![
        "update post_aggregates set hot_rank = hot_rank(score, published), hot_rank_active = hot_rank(score, newest_comment_time_necro)"@
            + recent_filter_of(recent_only),
        "update comment_aggregates set hot_rank = hot_rank(score, published)"@ + recent_filter_of(
            recent_only,
        ),
        "update community_aggregates set hot_rank = hot_rank(subscribers, published)"@
            + recent_filter_of(recent_only),
    ]
}

/// The ban expiry statements: lift lapsed bans, delete expired community bans.
pub open spec fn ban_sweep_statements_of() -> Seq<Seq<char>> {
    seq![
        "update person set banned = false where banned = true and ban_expires < now()"@,
        "delete from community_person_ban where expires < now()"@,
    ]
}

/// The statement that prunes the activity log past its six-month horizon.
pub open spec fn prune_statement_of() -> Seq<char> {
    "delete from activity where published < now() - interval '6 months'"@
}

pub open spec fn views(v: Seq<String>) -> Seq<Seq<char>> {
    v.map_values(|s: String| s@)
}

impl ActivityWindow {
    /// The windows in the order they are recounted.
    pub fn all() -> (r: Vec<ActivityWindow>)
        ensures
            r@ == seq![
                ActivityWindow::Day,
                ActivityWindow::Week,
                ActivityWindow::Month,
                ActivityWindow::HalfYear,
            ],
    {
        let r = vec![ActivityWindow::Day, ActivityWindow::Week, ActivityWindow::Month, ActivityWindow::HalfYear];
        assert(r@ =~= seq![
            ActivityWindow::Day,
            ActivityWindow::Week,
            ActivityWindow::Month,
            ActivityWindow::HalfYear,
        ]);
        r
    }

    pub fn interval(&self) -> (r: &'static str)
        ensures
            r@ == interval_of(*self),
    {
        match self {
            ActivityWindow::Day => "1 day",
            ActivityWindow::Week => "1 week",
            ActivityWindow::Month => "1 month",
            ActivityWindow::HalfYear => "6 months",
        }
    }

    pub fn column_suffix(&self) -> (r: &'static str)
        ensures
            r@ == column_suffix_of(*self),
    {
        match self {
            ActivityWindow::Day => "day",
            ActivityWindow::Week => "week",
            ActivityWindow::Month => "month",
            ActivityWindow::HalfYear => "half_year",
        }
    }

    /// The statement that recounts the site-wide counter of this window.
    pub fn site_active_statement(&self) -> (r: String)
        ensures
            r@ == site_active_statement_of(*self),
    {
        let mut r = String::from_str("update site_aggregates set users_active_");
        r.append(self.column_suffix());
        r.append(" = (select * from site_aggregates_activity('");
        r.append(self.interval());
        r.append("'))");
        r
    }

    /// The statement that recounts the per-community counters of this window.
    pub fn community_active_statement(&self) -> (r: String)
        ensures
            r@ == community_active_statement_of(*self),
    {
        let mut r = String::from_str("update community_aggregates ca set users_active_");
        r.append(self.column_suffix());
        r.append(" = mv.count_ from community_aggregates_activity('");
        r.append(self.interval());
        r.append("') mv where ca.community_id = mv.community_id_");
        r
    }
}

/// The eight recount statements of one cycle of the active-window task.
pub fn active_count_statements() -> (r: Vec<String>)
    ensures
        views(r@) == active_count_statements_of(),
{
    let r = vec![
        ActivityWindow::Day.site_active_statement(),
        ActivityWindow::Day.community_active_statement(),
        ActivityWindow::Week.site_active_statement(),
        ActivityWindow::Week.community_active_statement(),
        ActivityWindow::Month.site_active_statement(),
        ActivityWindow::Month.community_active_statement(),
        ActivityWindow::HalfYear.site_active_statement(),
        ActivityWindow::HalfYear.community_active_statement(),
    ];
    assert(views(r@) =~= active_count_statements_of());
    r
}

fn with_filter(base: &str, recent_only: bool) -> (r: String)
    ensures
        r@ == base@ + recent_filter_of(recent_only),
{
    let mut r = String::from_str(base);
    if recent_only {
        r.append(" where published > now() - interval '1 week'");
    } else {
        proof {
            reveal_strlit("");
            assert(base@ + ""@ =~= base@);
        }
    }
    r
}

/// The three rank recomputation statements, restricted to the last week of
/// content in recent mode.
pub fn hot_rank_statements(recent_only: bool) -> (r: Vec<String>)
    ensures
        views(r@) == hot_rank_statements_of(recent_only),
{
    let r = vec![
        with_filter(
            "update post_aggregates set hot_rank = hot_rank(score, published), hot_rank_active = hot_rank(score, newest_comment_time_necro)",
            recent_only,
        ),
        with_filter("update comment_aggregates set hot_rank = hot_rank(score, published)", recent_only),
        with_filter(
            "update community_aggregates set hot_rank = hot_rank(subscribers, published)",
            recent_only,
        ),
    ];
    assert(views(r@) =~= hot_rank_statements_of(recent_only));
    r
}

/// The two statements of the ban expiry sweep.
pub fn ban_sweep_statements() -> (r: Vec<String>)
    ensures
        views(r@) == ban_sweep_statements_of(),
{
    let r = vec![
        String::from_str("update person set banned = false where banned = true and ban_expires < now()"),
        String::from_str("delete from community_person_ban where expires < now()"),
    ];
    assert(views(r@) =~= ban_sweep_statements_of());
    r
}

/// The statement of the retention pruner.
pub fn prune_statement() -> (r: String)
    ensures
        r@ == prune_statement_of(),
{
    String::from_str("delete from activity where published < now() - interval '6 months'")
}

} // verus!
