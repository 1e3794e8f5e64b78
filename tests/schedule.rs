use scheduled_tasks::{Binding, Job, Schedule, Task, DAY, HOUR, MINUTE, WEEK};

#[test]
fn standard_schedule_periods() {
    let s = Schedule::standard(100);
    let periods: Vec<(Task, u64, u64)> = s.bindings.iter().map(|b| (b.task, b.period, b.last_run)).collect();
    assert_eq!(
        periods,
        vec![
            (Task::ActiveCountsAndBans, HOUR, 100),
            (Task::RecentHotRanks, 5 * MINUTE, 100),
            (Task::ClearOldActivities, WEEK, 100),
            (Task::InstanceSoftware, DAY, 100),
        ]
    );
}

#[test]
fn startup_runs_four_jobs_with_full_recompute() {
    assert_eq!(
        Schedule::startup_jobs(),
        vec![
            Job::ActiveCounts,
            Job::HotRanks { recent_only: false },
            Job::BannedWhenExpired,
            Job::ClearOldActivities,
        ]
    );
}

#[test]
fn task_jobs() {
    assert_eq!(Task::ActiveCountsAndBans.jobs(), vec![Job::ActiveCounts, Job::BannedWhenExpired]);
    assert_eq!(Task::RecentHotRanks.jobs(), vec![Job::HotRanks { recent_only: true }]);
    assert_eq!(Task::ClearOldActivities.jobs(), vec![Job::ClearOldActivities]);
    assert_eq!(Task::InstanceSoftware.jobs(), vec![Job::InstanceSoftware]);
}

#[test]
fn due_exactly_after_one_period() {
    let b = Binding::new(Task::RecentHotRanks, 300, 1000);
    assert!(!b.is_due(1299));
    assert!(b.is_due(1300));
    assert!(b.is_due(5000));
    assert!(!b.is_due(10));
}

#[test]
fn run_pending_records_due_tasks_only() {
    let mut s = Schedule::new(vec![
        Binding::new(Task::ActiveCountsAndBans, HOUR, 0),
        Binding::new(Task::RecentHotRanks, 300, 0),
    ]);
    assert_eq!(s.run_pending(299), Vec::<Task>::new());
    assert_eq!(s.run_pending(300), vec![Task::RecentHotRanks]);
    assert_eq!(s.bindings[1].last_run, 300);
    assert_eq!(s.bindings[0].last_run, 0);
    assert_eq!(s.run_pending(3600), vec![Task::ActiveCountsAndBans, Task::RecentHotRanks]);
    assert_eq!(s.bindings[0].last_run, 3600);
    assert_eq!(s.run_pending(3600), Vec::<Task>::new());
}

#[test]
fn simulated_clock_due_ness() {
    let mut s = Schedule::new(vec![
        Binding::new(Task::RecentHotRanks, 5 * MINUTE, 0),
        Binding::new(Task::ActiveCountsAndBans, HOUR, 0),
    ]);
    let mut five_minute_runs = 0;
    let mut hourly_runs = 0;
    for now in 1..=59 * MINUTE {
        for t in s.run_pending(now) {
            match t {
                Task::RecentHotRanks => five_minute_runs += 1,
                Task::ActiveCountsAndBans => hourly_runs += 1,
                _ => panic!("unexpected task"),
            }
        }
    }
    assert_eq!(hourly_runs, 0);
    assert_eq!(five_minute_runs, 11);
    for now in 59 * MINUTE + 1..=61 * MINUTE {
        for t in s.run_pending(now) {
            if t == Task::ActiveCountsAndBans {
                hourly_runs += 1;
            }
        }
    }
    assert_eq!(hourly_runs, 1);
}
