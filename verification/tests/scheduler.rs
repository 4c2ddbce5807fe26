use mkb::esi::processor::Job;
use mkb::esi::scheduler::{
    start_scheduler, Scheduler, Wake, FETCH_INTERVAL, REFRESH_INTERVAL, RESOLVE_INTERVAL,
};

/// Drives a scheduler from `start` until it wants to sleep beyond `end`.
fn run(scheduler: &mut Scheduler, start: u64, end: u64) -> Vec<Job> {
    let mut jobs = Vec::new();
    let mut now = start;
    loop {
        match scheduler.poll(now, false) {
            Wake::Emit(job) => jobs.push(job),
            Wake::Sleep(until) => {
                if until > end {
                    return jobs;
                }
                now = until;
            }
            Wake::Exit => panic!("exit without cancellation"),
        }
    }
}

#[test]
fn span_just_past_second_period_gives_one_refresh_and_one_fetch() {
    let mut scheduler = Scheduler::new(0, 5, 7, 60);
    assert_eq!(run(&mut scheduler, 0, 8), vec![Job::Refresh, Job::Killmails]);
}

#[test]
fn span_just_past_second_period_with_usual_periods() {
    let mut scheduler = Scheduler::new(1000, 400, 600, 3600);
    let jobs = run(&mut scheduler, 1000, 1601);
    assert_eq!(jobs, vec![Job::Refresh, Job::Killmails]);
    assert!(!jobs.contains(&Job::ResolveKillmails));
}

#[test]
fn usual_periods_over_one_hour() {
    assert_eq!(REFRESH_INTERVAL, 300);
    assert_eq!(FETCH_INTERVAL, 600);
    assert_eq!(RESOLVE_INTERVAL, 3600);
    let mut scheduler = start_scheduler(0);
    assert_eq!(scheduler.poll(0, false), Wake::Sleep(300));
    let jobs = run(&mut scheduler, 0, 3600);
    assert_eq!(jobs.iter().filter(|j| **j == Job::Refresh).count(), 12);
    assert_eq!(jobs.iter().filter(|j| **j == Job::Killmails).count(), 6);
    assert_eq!(jobs.iter().filter(|j| **j == Job::ResolveKillmails).count(), 1);
    assert_eq!(&jobs[..3], &[Job::Refresh, Job::Refresh, Job::Killmails]);
    assert_eq!(&jobs[16..], &[Job::Refresh, Job::Killmails, Job::ResolveKillmails]);
}

#[test]
fn nothing_fires_before_the_first_period() {
    let mut scheduler = Scheduler::new(100, 5, 7, 60);
    assert_eq!(scheduler.poll(100, false), Wake::Sleep(105));
    assert_eq!(scheduler.poll(104, false), Wake::Sleep(105));
    assert_eq!(scheduler.poll(105, false), Wake::Emit(Job::Refresh));
    assert_eq!(scheduler.poll(105, false), Wake::Sleep(107));
}

#[test]
fn cancellation_during_idle_wait_ends_the_scheduler() {
    let mut scheduler = Scheduler::new(0, 5, 7, 60);
    assert_eq!(scheduler.poll(0, false), Wake::Sleep(5));
    assert_eq!(scheduler.poll(3, true), Wake::Exit);
    assert_eq!(scheduler.poll(5, false), Wake::Exit);
    assert_eq!(scheduler.poll(1000, false), Wake::Exit);
}

#[test]
fn cancellation_comes_before_a_due_tick() {
    let mut scheduler = Scheduler::new(0, 5, 7, 60);
    assert_eq!(scheduler.poll(60, true), Wake::Exit);
    assert_eq!(scheduler.poll(60, false), Wake::Exit);
}

#[test]
fn missed_ticks_are_skipped() {
    let mut scheduler = Scheduler::new(0, 5, 7, 60);
    assert_eq!(scheduler.poll(23, false), Wake::Emit(Job::Refresh));
    assert_eq!(scheduler.poll(23, false), Wake::Emit(Job::Killmails));
    assert_eq!(scheduler.poll(23, false), Wake::Sleep(25));
    assert_eq!(scheduler.poll(25, false), Wake::Emit(Job::Refresh));
    assert_eq!(scheduler.poll(25, false), Wake::Sleep(28));
}

#[test]
fn timers_due_together_are_served_in_order() {
    let mut scheduler = Scheduler::new(0, 10, 10, 10);
    assert_eq!(scheduler.poll(10, false), Wake::Emit(Job::Refresh));
    assert_eq!(scheduler.poll(10, false), Wake::Emit(Job::Killmails));
    assert_eq!(scheduler.poll(10, false), Wake::Emit(Job::ResolveKillmails));
    assert_eq!(scheduler.poll(10, false), Wake::Sleep(20));
}

#[test]
fn times_stop_at_the_end_of_the_clock() {
    let mut scheduler = Scheduler::new(u64::MAX - 3, 5, 2, 1);
    assert_eq!(scheduler.poll(u64::MAX - 3, false), Wake::Sleep(u64::MAX - 2));
    assert_eq!(scheduler.poll(u64::MAX - 2, false), Wake::Emit(Job::ResolveKillmails));
    assert_eq!(scheduler.poll(u64::MAX - 2, false), Wake::Sleep(u64::MAX - 1));
    let mut late = Scheduler::new(0, u64::MAX, u64::MAX, u64::MAX);
    assert_eq!(late.poll(u64::MAX, false), Wake::Emit(Job::Refresh));
    assert_eq!(late.poll(5, false), Wake::Sleep(u64::MAX));
}
