use vstd::prelude::*;
use crate::esi::processor::{Job, JobView};

verus! {

/// Seconds between two refresh jobs.
pub const REFRESH_INTERVAL: u64 = 5 * 60;

/// Seconds between two jobs that fetch killmail references.
pub const FETCH_INTERVAL: u64 = 10 * 60;

/// Seconds between two jobs that resolve killmails.
pub const RESOLVE_INTERVAL: u64 = 60 * 60;

/// The three timers.
#[derive(Clone, Copy, Debug, PartialEq, Eq, Structural)]
pub enum Timer {
    Refresh,
    Fetch,
    Resolve,
}

impl Timer {
    /// The job that a tick of the timer enqueues.
    pub open spec fn job(self) -> JobView {
        match self {
            Timer::Refresh => JobView::Refresh,
            Timer::Fetch => JobView::Killmails,
            Timer::Resolve => JobView::ResolveKillmails,
        }
    }
}

/// The scheduler as a value. Times are seconds on a clock of the caller's
/// choice; a timer's `next` is the time of its next tick.
pub struct SchedulerView {
    pub refresh_every: nat,
    pub fetch_every: nat,
    pub resolve_every: nat,
    pub next_refresh: nat,
    pub next_fetch: nat,
    pub next_resolve: nat,
    pub stopped: bool,
}

/// What the scheduler wants done.
#[derive(Debug, PartialEq, Eq)]
pub enum Wake {
    /// Enqueue this job, blocking until the queue takes it, then ask again.
    Emit(Job),
    /// Nothing is due: wait until the given time or until cancellation,
    /// whichever comes first, then ask again.
    Sleep(u64),
    /// The scheduler was cancelled: it is over.
    Exit,
}

pub enum WakeView {
    Emit(JobView),
    Sleep(nat),
    Exit,
}

impl View for Wake {
    type V = WakeView;

    open spec fn view(&self) -> WakeView {
        match self {
            Wake::Emit(job) => WakeView::Emit(job@),
            Wake::Sleep(until) => WakeView::Sleep(*until as nat),
            Wake::Exit => WakeView::Exit,
        }
    }
}

/// The next tick after a tick that was due at `due` and is served at `now`:
/// the first of `due + every`, `due + 2 * every`, ... that lies after `now`.
/// Ticks that were missed in between are skipped, not made up for. Times
/// stop at the greatest that the clock can show.
pub open spec fn tick_after(due: nat, every: nat, now: nat) -> nat
    recommends
        every > 0,
        due <= now,
{
    let next = due + ((now - due) / every as int + 1) * every;
    if next > u64::MAX {
        u64::MAX as nat
    } else {
        next as nat
    }
}

impl SchedulerView {
    /// The timer that is served at `now`: the first that is due, in the
    /// order refresh, fetch, resolve.
    pub open spec fn due(self, now: nat) -> Option<Timer> {
        if self.next_refresh <= now {
            Some(Timer::Refresh)
        } else if self.next_fetch <= now {
            Some(Timer::Fetch)
        } else if self.next_resolve <= now {
            Some(Timer::Resolve)
        } else {
            None
        }
    }

    /// The earliest tick that is still to come.
    pub open spec fn earliest(self) -> nat {
        let a = if self.next_refresh <= self.next_fetch {
            self.next_refresh
        } else {
            self.next_fetch
        };
        if a <= self.next_resolve {
            a
        } else {
            self.next_resolve
        }
    }

    /// The scheduler after the tick of `timer` was served at `now`.
    pub open spec fn served(self, timer: Timer, now: nat) -> SchedulerView {
        match timer {
            Timer::Refresh => SchedulerView {
                next_refresh: tick_after(self.next_refresh, self.refresh_every, now),
                ..self
            },
            Timer::Fetch => SchedulerView {
                next_fetch: tick_after(self.next_fetch, self.fetch_every, now),
                ..self
            },
            Timer::Resolve => SchedulerView {
                next_resolve: tick_after(self.next_resolve, self.resolve_every, now),
                ..self
            },
        }
    }

    /// What the scheduler wants done at `now`. Cancellation comes first: a
    /// scheduler that is or was cancelled exits and emits nothing.
    pub open spec fn wake(self, now: nat, cancelled: bool) -> WakeView {
        if self.stopped || cancelled {
            WakeView::Exit
        } else {
            match self.due(now) {
                Some(timer) => WakeView::Emit(timer.job()),
                None => WakeView::Sleep(self.earliest()),
            }
        }
    }

    /// The scheduler after it was asked at `now`.
    pub open spec fn step(self, now: nat, cancelled: bool) -> SchedulerView {
        if self.stopped || cancelled {
            SchedulerView { stopped: true, ..self }
        } else {
            match self.due(now) {
                Some(timer) => self.served(timer, now),
                None => self,
            }
        }
    }

    /// Every period is positive.
    pub open spec fn wf(self) -> bool {
        self.refresh_every > 0 && self.fetch_every > 0 && self.resolve_every > 0
    }

    /// The scheduler that starts at `now` with the given periods: each timer
    /// ticks for the first time one period after `now`.
    pub open spec fn started(
        now: nat,
        refresh_every: nat,
        fetch_every: nat,
        resolve_every: nat,
    ) -> SchedulerView {
        SchedulerView {
            refresh_every,
            fetch_every,
            resolve_every,
            next_refresh: capped_sum(now, refresh_every),
            next_fetch: capped_sum(now, fetch_every),
            next_resolve: capped_sum(now, resolve_every),
            stopped: false,
        }
    }

    /// The scheduler after it was asked at each of the given times in turn,
    /// without cancellation.
    pub open spec fn polled(self, times: Seq<nat>) -> SchedulerView
        decreases times.len(),
    {
        if times.len() == 0 {
            self
        } else {
            self.polled(times.drop_last()).step(times.last(), false)
        }
    }

    /// The jobs that the scheduler emits when it is asked at each of the
    /// given times in turn, without cancellation.
    pub open spec fn emitted(self, times: Seq<nat>) -> Seq<JobView>
        decreases times.len(),
    {
        if times.len() == 0 {
            Seq::empty()
        } else {
            let before = self.emitted(times.drop_last());
            match self.polled(times.drop_last()).wake(times.last(), false) {
                WakeView::Emit(job) => before.push(job),
                _ => before,
            }
        }
    }

    /// The jobs that the scheduler emits on the run that it asks for itself:
    /// it is asked at `now`; after a job it is asked again at once, and after
    /// a sleep at the time until which it wanted to sleep. The run ends when
    /// it wants to sleep beyond `end`, and after `polls` polls at the
    /// latest.
    pub open spec fn driven(self, now: nat, end: nat, polls: nat) -> Seq<JobView>
        decreases polls,
    {
        if polls == 0 {
            Seq::empty()
        } else {
            match self.wake(now, false) {
                WakeView::Emit(job) => seq![job] + self.step(now, false).driven(
                    now,
                    end,
                    (polls - 1) as nat,
                ),
                WakeView::Sleep(until) => if until > end {
                    Seq::empty()
                } else {
                    self.step(now, false).driven(until, end, (polls - 1) as nat)
                },
                WakeView::Exit => Seq::empty(),
            }
        }
    }
}

/// Three timers that tick on their own periods, and the decision what to do
/// when one of them is due. The scheduler neither sleeps nor enqueues: it
/// says what is to be done, and its caller does it and asks again.
#[derive(Debug, PartialEq, Eq)]
pub struct Scheduler {
    refresh_every: u64,
    fetch_every: u64,
    resolve_every: u64,
    next_refresh: u64,
    next_fetch: u64,
    next_resolve: u64,
    stopped: bool,
}

impl View for Scheduler {
    type V = SchedulerView;

    closed spec fn view(&self) -> SchedulerView {
        SchedulerView {
            refresh_every: self.refresh_every as nat,
            fetch_every: self.fetch_every as nat,
            resolve_every: self.resolve_every as nat,
            next_refresh: self.next_refresh as nat,
            next_fetch: self.next_fetch as nat,
            next_resolve: self.next_resolve as nat,
            stopped: self.stopped,
        }
    }
}

/// `a + b`, or the greatest time where the sum is beyond it.
pub open spec fn capped_sum(a: nat, b: nat) -> nat {
    if a + b > u64::MAX {
        u64::MAX as nat
    } else {
        a + b
    }
}

fn next_tick(due: u64, every: u64, now: u64) -> (r: u64)
    requires
        every > 0,
        due <= now,
    ensures
        r == tick_after(due as nat, every as nat, now as nat),
{
    let missed: u64 = (now - due) / every;
    let ghost exact: int = due + (missed + 1) * every;
    assert(exact == due + ((now - due) / every as int + 1) * every);
    match missed.checked_add(1) {
        None => {
            assert(exact > u64::MAX) by (nonlinear_arith)
                requires
                    exact == due + (missed + 1) * every,
                    missed + 1 > u64::MAX,
                    every >= 1,
                    due >= 0,
            ;
            u64::MAX
        },
        Some(count) => match count.checked_mul(every) {
            None => {
                u64::MAX
            },
            Some(span) => match due.checked_add(span) {
                None => u64::MAX,
                Some(next) => next,
            },
        },
    }
}

impl Scheduler {
    #[verifier::type_invariant]
    spec fn periods_positive(self) -> bool {
        self.refresh_every > 0 && self.fetch_every > 0 && self.resolve_every > 0
    }

    /// A scheduler that starts at `now` with the given periods, in seconds.
    /// Each timer ticks for the first time one period after `now`.
    pub fn new(now: u64, refresh_every: u64, fetch_every: u64, resolve_every: u64) -> (r:
        Scheduler)
        requires
            refresh_every > 0,
            fetch_every > 0,
            resolve_every > 0,
        ensures
            r@ == SchedulerView::started(
                now as nat,
                refresh_every as nat,
                fetch_every as nat,
                resolve_every as nat,
            ),
    {
        Scheduler {
            refresh_every,
            fetch_every,
            resolve_every,
            next_refresh: now.saturating_add(refresh_every),
            next_fetch: now.saturating_add(fetch_every),
            next_resolve: now.saturating_add(resolve_every),
            stopped: false,
        }
    }

    /// Says what is to be done at `now`, given whether the cancellation
    /// signal has come, and moves the timer that was served on.
    pub fn poll(&mut self, now: u64, cancelled: bool) -> (r: Wake)
        ensures
            r@ == old(self)@.wake(now as nat, cancelled),
            final(self)@ == old(self)@.step(now as nat, cancelled),
            final(self)@.wf(),
    {
        proof {
            use_type_invariant(&*self);
        }
        if self.stopped || cancelled {
            self.stopped = true;
            return Wake::Exit;
        }
        if self.next_refresh <= now {
            self.next_refresh = next_tick(self.next_refresh, self.refresh_every, now);
            Wake::Emit(Job::Refresh)
        } else if self.next_fetch <= now {
            self.next_fetch = next_tick(self.next_fetch, self.fetch_every, now);
            Wake::Emit(Job::Killmails)
        } else if self.next_resolve <= now {
            self.next_resolve = next_tick(self.next_resolve, self.resolve_every, now);
            Wake::Emit(Job::ResolveKillmails)
        } else {
            let a = if self.next_refresh <= self.next_fetch {
                self.next_refresh
            } else {
                self.next_fetch
            };
            let earliest = if a <= self.next_resolve {
                a
            } else {
                self.next_resolve
            };
            Wake::Sleep(earliest)
        }
    }
}

/// Starts the scheduler at `now` with the usual periods: a refresh every
/// five minutes, a fetch every ten, a resolution every hour.
pub fn start_scheduler(now: u64) -> (r: Scheduler)
    ensures
        r@ == SchedulerView::started(
            now as nat,
            REFRESH_INTERVAL as nat,
            FETCH_INTERVAL as nat,
            RESOLVE_INTERVAL as nat,
        ),
{
    Scheduler::new(now, REFRESH_INTERVAL, FETCH_INTERVAL, RESOLVE_INTERVAL)
}

/// A tick that was served is not due again at the same time: one tick gives
/// one job.
pub proof fn lemma_tick_moves_on(due: nat, every: nat, now: nat)
    requires
        every > 0,
        due <= now < u64::MAX,
    ensures
        tick_after(due, every, now) > now,
{
    let elapsed = (now - due) as int;
    let e = every as int;
    assert(elapsed == e * (elapsed / e) + elapsed % e && 0 <= elapsed % e < e) by {
        vstd::arithmetic::div_mod::lemma_fundamental_div_mod(elapsed, e);
        vstd::arithmetic::div_mod::lemma_mod_bound(elapsed, e);
    }
    assert((elapsed / e + 1) * e == e * (elapsed / e) + e) by (nonlinear_arith);
}

/// Cancellation is final: a scheduler that was told of it exits at once,
/// emits no job, and exits again whenever it is asked later.
pub proof fn lemma_cancelled_stays_silent(
    scheduler: SchedulerView,
    now: nat,
    later: nat,
    cancelled_later: bool,
)
    ensures
        scheduler.wake(now, true) is Exit,
        scheduler.step(now, true).wake(later, cancelled_later) is Exit,
        scheduler.step(now, true).step(later, cancelled_later) == scheduler.step(now, true),
{
}

/// A scheduler that is not cancelled and has nothing due sleeps until its
/// earliest tick, which lies after now, and stays as it is.
pub proof fn lemma_idle_sleeps(scheduler: SchedulerView, now: nat)
    requires
        !scheduler.stopped,
        scheduler.due(now) is None,
    ensures
        scheduler.wake(now, false) == WakeView::Sleep(scheduler.earliest()),
        scheduler.earliest() > now,
        scheduler.step(now, false) == scheduler,
{
}

/// A tick that is served on time is followed by the next one period later.
pub proof fn lemma_tick_at_once(due: nat, every: nat)
    requires
        every > 0,
    ensures
        tick_after(due, every, due) == capped_sum(due, every),
{
    let e = every as int;
    assert(0int / e == 0 && (0int / e + 1) * e == e) by (nonlinear_arith)
        requires
            e > 0,
    ;
}

/// A timer that is not due at any of the times at which the scheduler is
/// asked does not tick: no job of the resolve timer is emitted before its
/// first tick, however often and whenever the scheduler is asked before it,
/// and the tick stays where it was.
pub proof fn lemma_no_resolve_before_its_tick(scheduler: SchedulerView, times: Seq<nat>)
    requires
        !scheduler.stopped,
        forall|i: int| 0 <= i < times.len() ==> times[i] < scheduler.next_resolve,
    ensures
        scheduler.polled(times).next_resolve == scheduler.next_resolve,
        !scheduler.polled(times).stopped,
        forall|k: int|
            0 <= k < scheduler.emitted(times).len() ==> !(scheduler.emitted(times)[k]
                is ResolveKillmails),
    decreases times.len(),
{
    if times.len() > 0 {
        lemma_no_resolve_before_its_tick(scheduler, times.drop_last());
    }
}

/// The same for the refresh timer.
pub proof fn lemma_no_refresh_before_its_tick(scheduler: SchedulerView, times: Seq<nat>)
    requires
        !scheduler.stopped,
        forall|i: int| 0 <= i < times.len() ==> times[i] < scheduler.next_refresh,
    ensures
        scheduler.polled(times).next_refresh == scheduler.next_refresh,
        !scheduler.polled(times).stopped,
        forall|k: int|
            0 <= k < scheduler.emitted(times).len() ==> !(scheduler.emitted(times)[k] is Refresh),
    decreases times.len(),
{
    if times.len() > 0 {
        lemma_no_refresh_before_its_tick(scheduler, times.drop_last());
    }
}

/// The same for the fetch timer.
pub proof fn lemma_no_fetch_before_its_tick(scheduler: SchedulerView, times: Seq<nat>)
    requires
        !scheduler.stopped,
        forall|i: int| 0 <= i < times.len() ==> times[i] < scheduler.next_fetch,
    ensures
        scheduler.polled(times).next_fetch == scheduler.next_fetch,
        !scheduler.polled(times).stopped,
        forall|k: int|
            0 <= k < scheduler.emitted(times).len() ==> !(scheduler.emitted(times)[k] is Killmails),
    decreases times.len(),
{
    if times.len() > 0 {
        lemma_no_fetch_before_its_tick(scheduler, times.drop_last());
    }
}

/// The run of a scheduler over a span that ends after the first fetch tick
/// and before the second refresh tick and the first resolve tick: one
/// refresh job, then one fetch job, and no resolve job. The periods are such
/// that the fetch period lies between one and two refresh periods and the
/// resolve period is the longest; the span ends before the clock does.
pub proof fn lemma_first_span(
    start: nat,
    refresh_every: nat,
    fetch_every: nat,
    resolve_every: nat,
    end: nat,
    polls: nat,
)
    requires
        0 < refresh_every < fetch_every < resolve_every,
        start + fetch_every <= end,
        end < start + 2 * refresh_every,
        end < start + resolve_every,
        end < u64::MAX,
        polls >= 5,
    ensures
        SchedulerView::started(start, refresh_every, fetch_every, resolve_every).driven(
            start,
            end,
            polls,
        ) == seq![JobView::Refresh, JobView::Killmails],
{
    let s0 = SchedulerView::started(start, refresh_every, fetch_every, resolve_every);
    let at_refresh = start + refresh_every;
    let at_fetch = start + fetch_every;
    let s1 = s0.step(at_refresh, false);
    let s2 = s1.step(at_fetch, false);
    lemma_tick_at_once(at_refresh, refresh_every);
    lemma_tick_at_once(at_fetch, fetch_every);
    assert(s0.wake(start, false) == WakeView::Sleep(at_refresh));
    assert(s0.step(start, false) == s0);
    assert(s0.wake(at_refresh, false) == WakeView::Emit(JobView::Refresh));
    assert(s1.wake(at_refresh, false) == WakeView::Sleep(at_fetch));
    assert(s1.step(at_refresh, false) == s1);
    assert(s1.wake(at_fetch, false) == WakeView::Emit(JobView::Killmails));
    assert(s2.wake(at_fetch, false) is Sleep);
    assert(s2.wake(at_fetch, false)->Sleep_0 > end);
    let p = polls;
    assert(s2.driven(at_fetch, end, (p - 4) as nat) == Seq::<JobView>::empty());
    assert(s1.driven(at_fetch, end, (p - 3) as nat) =~= seq![JobView::Killmails]);
    assert(s1.driven(at_refresh, end, (p - 2) as nat) =~= seq![JobView::Killmails]);
    assert(s0.driven(at_refresh, end, (p - 1) as nat) =~= seq![
        JobView::Refresh,
        JobView::Killmails,
    ]);
    assert(s0.driven(start, end, p) =~= seq![JobView::Refresh, JobView::Killmails]);
}

} // verus!
