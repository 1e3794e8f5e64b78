use vstd::arithmetic::div_mod::{lemma_fundamental_div_mod, lemma_fundamental_div_mod_converse};
use vstd::prelude::*;

verus! {

/// Seconds in a minute, an hour, a day and a week.
pub const MINUTE: u64 = 60;

pub const HOUR: u64 = 3600;

pub const DAY: u64 = 86400;

pub const WEEK: u64 = 604800;

/// The recurring tasks of the schedule, one for each binding.
#[derive(Clone, Copy, Debug, PartialEq, Eq, Structural)]
pub enum Task {
    /// Active-window recount followed by the ban expiry sweep (hourly).
    ActiveCountsAndBans,
    /// Rank recomputation of the last week of content (every five minutes).
    RecentHotRanks,
    /// Pruning of the activity log (weekly).
    ClearOldActivities,
    /// Polling every known peer for its software and version (daily).
    InstanceSoftware,
}

/// One unit of work run against the store.
#[derive(Clone, Copy, Debug, PartialEq, Eq, Structural)]
pub enum Job {
    ActiveCounts,
    HotRanks { recent_only: bool },
    BannedWhenExpired,
    ClearOldActivities,
    InstanceSoftware,
}

/// A task with its fixed period and the time (in seconds) it last ran.
#[derive(Clone, Copy, Debug, PartialEq, Eq, Structural)]
pub struct Binding {
    pub task: Task,
    pub period: u64,
    pub last_run: u64,
}

/// A binding is due once a full period has elapsed since it last ran.
pub open spec fn is_due(b: Binding, now: u64) -> bool {
    b.last_run as int + b.period as int <= now as int
}

/// The binding after a tick at `now`: a due binding records the run.
pub open spec fn after_tick(b: Binding, now: u64) -> Binding {
    if is_due(b, now) {
        Binding { last_run: now, ..b }
    } else {
        b
    }
}

/// The tasks that a tick at `now` runs, in binding order.
pub open spec fn due_tasks(bs: Seq<Binding>, now: u64) -> Seq<Task>
    decreases bs.len(),
{
    if bs.len() == 0 {
        Seq::empty()
    } else {
        let rest = due_tasks(bs.drop_last(), now);
        if is_due(bs.last(), now) {
            rest.push(bs.last().task)
        } else {
            rest
        }
    }
}

/// The jobs that make up each task.
pub open spec fn jobs_of(task: Task) -> Seq<Job> {
    match task {
        Task::ActiveCountsAndBans => seq![Job::ActiveCounts, Job::BannedWhenExpired],
        Task::RecentHotRanks => seq![Job::HotRanks { recent_only: true }],
        Task::ClearOldActivities => seq![Job::ClearOldActivities],
        Task::InstanceSoftware => seq![Job::InstanceSoftware],
    }
}

/// The jobs run once when the process starts, before the periodic loop.
pub open spec fn startup_job_list() -> Seq<Job> {
    seq![
        Job::ActiveCounts,
        Job::HotRanks { recent_only: false },
        Job::BannedWhenExpired,
        Job::ClearOldActivities,
    ]
}

/// The standard table of bindings, each last run at `start`.
pub open spec fn standard_bindings(start: u64) -> Seq<Binding> {
    seq![
        Binding { task: Task::ActiveCountsAndBans, period: HOUR, last_run: start },
        Binding { task: Task::RecentHotRanks, period: 300, last_run: start },
        Binding { task: Task::ClearOldActivities, period: WEEK, last_run: start },
        Binding { task: Task::InstanceSoftware, period: DAY, last_run: start },
    ]
}

/// A binding ticked once a second at `start + 1`, ..., `start + k`, paired
/// with the number of times it ran.
pub open spec fn ticked(b: Binding, start: u64, k: nat) -> (Binding, nat)
    decreases k,
{
    if k == 0 {
        (b, 0)
    } else {
        let (prev, runs) = ticked(b, start, (k - 1) as nat);
        let now = (start + k) as u64;
        (after_tick(prev, now), runs + if is_due(prev, now) { 1nat } else { 0nat })
    }
}

proof fn lemma_div_step(k: int, p: int)
    requires
        k > 0,
        p > 0,
    ensures
        p * ((k - 1) / p) + p <= k ==> k / p == (k - 1) / p + 1 && k == p * (k / p) && p * (k / p)
            == p * ((k - 1) / p) + p,
        p * ((k - 1) / p) + p > k ==> k / p == (k - 1) / p,
{
    let q = (k - 1) / p;
    let r = (k - 1) % p;
    lemma_fundamental_div_mod(k - 1, p);
    assert(0 <= r < p);
    if r + 1 == p {
        assert(k == (q + 1) * p + 0) by (nonlinear_arith)
            requires
                k - 1 == p * q + r,
                r + 1 == p,
        ;
        lemma_fundamental_div_mod_converse(k, p, q + 1, 0);
        assert(p * (q + 1) == p * q + p && k == p * (q + 1)) by (nonlinear_arith)
            requires
                k == (q + 1) * p + 0,
        ;
        assert(p * q + p <= k) by (nonlinear_arith)
            requires
                k - 1 == p * q + r,
                r + 1 == p,
        ;
    } else {
        assert(k == q * p + (r + 1) && p * q + p > k) by (nonlinear_arith)
            requires
                k - 1 == p * q + r,
                r + 1 < p,
        ;
        lemma_fundamental_div_mod_converse(k, p, q, r + 1);
    }
}

/// Ticked once a second from its last run, a binding with a positive period
/// `p` has run `k / p` times after `k` seconds, the last time at the latest
/// whole multiple of `p`: it never runs again within less than a period, and
/// runs again as soon as a full period has elapsed.
pub proof fn lemma_runs_once_per_period(b: Binding, k: nat)
    requires
        b.period > 0,
        b.last_run as int + k <= u64::MAX,
    ensures
        ticked(b, b.last_run, k).1 == k / (b.period as nat),
        ticked(b, b.last_run, k).0.last_run == b.last_run as int + b.period as int * (k / (b.period as nat)) as int,
        ticked(b, b.last_run, k).0.period == b.period,
        ticked(b, b.last_run, k).0.task == b.task,
    decreases k,
{
    if k > 0 {
        let km1 = (k - 1) as nat;
        lemma_runs_once_per_period(b, km1);
        lemma_div_step(k as int, b.period as int);
        let p = b.period as int;
        let prev = ticked(b, b.last_run, km1).0;
        let now = (b.last_run + k) as u64;
        assert(km1 / (b.period as nat) == (k as int - 1) / p);
        assert(k / (b.period as nat) == (k as int) / p);
        assert(prev.last_run == b.last_run as int + p * ((k as int - 1) / p));
        assert(ticked(b, b.last_run, k).0 == after_tick(prev, now));
        if is_due(prev, now) {
            assert(p * ((k as int - 1) / p) + p <= k);
            assert(ticked(b, b.last_run, k).0.last_run == b.last_run as int + k);
            assert(k as int == p * ((k as int) / p));
        } else {
            assert(p * ((k as int - 1) / p) + p > k);
            assert(ticked(b, b.last_run, k).0.last_run == prev.last_run);
        }
    } else {
        assert(0int / (b.period as int) == 0) by (nonlinear_arith)
            requires
                b.period > 0,
        ;
    }
}

impl Binding {
    pub fn new(task: Task, period: u64, last_run: u64) -> (b: Binding)
        ensures
            b == (Binding { task, period, last_run }),
    {
        Binding { task, period, last_run }
    }

    pub fn is_due(&self, now: u64) -> (r: bool)
        ensures
            r == is_due(*self, now),
    {
        self.last_run <= now && now - self.last_run >= self.period
    }
}

impl Task {
    pub fn jobs(&self) -> (r: Vec<Job>)
        ensures
            r@ == jobs_of(*self),
    {
        match self {
            Task::ActiveCountsAndBans => vec![Job::ActiveCounts, Job::BannedWhenExpired],
            Task::RecentHotRanks => vec![Job::HotRanks { recent_only: true }],
            Task::ClearOldActivities => vec![Job::ClearOldActivities],
            Task::InstanceSoftware => vec![Job::InstanceSoftware],
        }
    }
}

/// The schedule state: the bindings, each with its period and last run.
pub struct Schedule {
    pub bindings: Vec<Binding>,
}

impl Schedule {
    pub fn new(bindings: Vec<Binding>) -> (s: Schedule)
        ensures
            s.bindings@ == bindings@,
    {
        Schedule { bindings }
    }

    /// The standard schedule, started at `start`.
    pub fn standard(start: u64) -> (s: Schedule)
        ensures
            s.bindings@ == standard_bindings(start),
    {
        let bindings = vec![
            Binding::new(Task::ActiveCountsAndBans, HOUR, start),
            Binding::new(Task::RecentHotRanks, 5 * MINUTE, start),
            Binding::new(Task::ClearOldActivities, WEEK, start),
            Binding::new(Task::InstanceSoftware, DAY, start),
        ];
        assert(bindings@ =~= standard_bindings(start));
        Schedule { bindings }
    }

    /// The jobs run once at startup.
    pub fn startup_jobs() -> (r: Vec<Job>)
        ensures
            r@ == startup_job_list(),
    {
        let r = vec![
            Job::ActiveCounts,
            Job::HotRanks { recent_only: false },
            Job::BannedWhenExpired,
            Job::ClearOldActivities,
        ];
        assert(r@ =~= startup_job_list());
        r
    }

    /// One tick of the clock at `now`: returns the due tasks in binding order
    /// and records `now` as their last run; the other bindings are unchanged.
    pub fn run_pending(&mut self, now: u64) -> (ran: Vec<Task>)
        ensures
            final(self).bindings@.len() == old(self).bindings@.len(),
            forall|i: int|
                0 <= i < old(self).bindings@.len() ==> #[trigger] final(self).bindings@[i]
                    == after_tick(old(self).bindings@[i], now),
            ran@ == due_tasks(old(self).bindings@, now),
    {
        let ghost before = self.bindings@;
        let mut ran: Vec<Task> = Vec::new();
        let n = self.bindings.len();
        let mut i: usize = 0;
        while i < n
            invariant
                n == before.len(),
                self.bindings@.len() == n,
                0 <= i <= n,
                forall|j: int| 0 <= j < i ==> #[trigger] self.bindings@[j] == after_tick(before[j], now),
                forall|j: int| i <= j < n ==> #[trigger] self.bindings@[j] == before[j],
                ran@ == due_tasks(before.subrange(0, i as int), now),
            decreases n - i,
        {
            let b = self.bindings[i];
            assert(before.subrange(0, i + 1).drop_last() =~= before.subrange(0, i as int));
            if b.is_due(now) {
                ran.push(b.task);
                self.bindings.set(i, Binding { last_run: now, ..b });
            }
            i = i + 1;
        }
        assert(before.subrange(0, n as int) =~= before);
        ran
    }
}

} // verus!
