use std::collections::VecDeque;
use vstd::prelude::*;
use crate::esi::{EsiClient, EsiClientView};
use crate::models::{Entity, EntityView, Killmail, KillmailView, User, UserView};

verus! {

/// One unit of work for the processor.
#[derive(Debug, PartialEq, Eq)]
pub enum Job {
    /// Renew the tokens of the stored accounts.
    Refresh,
    /// Fetch the recent killmail references of every stored account.
    Killmails,
    /// Fetch the detail of every killmail that waits for it.
    ResolveKillmails,
    SaveCharacter(User),
    SaveKillmail(Killmail),
    SaveEntity(Entity),
    /// Ends the processor.
    Stop,
}

pub enum JobView {
    Refresh,
    Killmails,
    ResolveKillmails,
    SaveCharacter(UserView),
    SaveKillmail(KillmailView),
    SaveEntity(EntityView),
    Stop,
}

impl View for Job {
    type V = JobView;

    open spec fn view(&self) -> JobView {
        match self {
            Job::Refresh => JobView::Refresh,
            Job::Killmails => JobView::Killmails,
            Job::ResolveKillmails => JobView::ResolveKillmails,
            Job::SaveCharacter(u) => JobView::SaveCharacter(u@),
            Job::SaveKillmail(k) => JobView::SaveKillmail(k@),
            Job::SaveEntity(e) => JobView::SaveEntity(e@),
            Job::Stop => JobView::Stop,
        }
    }
}

impl Clone for Job {
    fn clone(&self) -> (r: Self)
        ensures
            r == *self,
    {
        match self {
            Job::Refresh => Job::Refresh,
            Job::Killmails => Job::Killmails,
            Job::ResolveKillmails => Job::ResolveKillmails,
            Job::SaveCharacter(u) => Job::SaveCharacter(u.clone()),
            Job::SaveKillmail(k) => Job::SaveKillmail(k.clone()),
            Job::SaveEntity(e) => Job::SaveEntity(e.clone()),
            Job::Stop => Job::Stop,
        }
    }
}

/// The views of a list of jobs.
pub open spec fn job_views(jobs: Seq<Job>) -> Seq<JobView> {
    jobs.map_values(|j: Job| j@)
}

/// A bounded queue as a value: the jobs that wait, oldest first, and how many
/// may wait at once.
pub struct QueueView {
    pub jobs: Seq<JobView>,
    pub limit: nat,
}

impl QueueView {
    /// No more jobs wait than may.
    pub open spec fn wf(self) -> bool {
        self.jobs.len() <= self.limit
    }

    pub open spec fn is_full(self) -> bool {
        self.jobs.len() >= self.limit
    }

    /// The queue after an attempt to enqueue `job`: the job goes to the end
    /// where there is room, and nothing changes where there is none.
    pub open spec fn offer(self, job: JobView) -> QueueView {
        if self.is_full() {
            self
        } else {
            QueueView { jobs: self.jobs.push(job), limit: self.limit }
        }
    }

    /// The queue after a dequeue: the oldest job is gone, if there was one.
    pub open spec fn take(self) -> QueueView {
        if self.jobs.len() == 0 {
            self
        } else {
            QueueView { jobs: self.jobs.skip(1), limit: self.limit }
        }
    }

    /// The queue after each of `jobs` was offered in turn.
    pub open spec fn offer_all(self, jobs: Seq<JobView>) -> QueueView
        decreases jobs.len(),
    {
        if jobs.len() == 0 {
            self
        } else {
            self.offer_all(jobs.drop_last()).offer(jobs.last())
        }
    }
}

/// The job that a full queue turned away.
#[derive(Debug, PartialEq, Eq)]
pub struct QueueFull(pub Job);

/// How a blocking enqueue went.
#[derive(Debug, PartialEq, Eq)]
pub enum Enqueue {
    /// The job is in the queue.
    Accepted,
    /// The queue is full. The job is handed back: the producer waits until a
    /// job was taken out and then sends it again.
    Wait(Job),
}

/// The bounded first-in-first-out queue between the producers of jobs and the
/// one processor.
pub struct JobQueue {
    items: VecDeque<Job>,
    capacity: usize,
}

impl View for JobQueue {
    type V = QueueView;

    closed spec fn view(&self) -> QueueView {
        QueueView { jobs: job_views(self.items@), limit: self.capacity as nat }
    }
}

impl JobQueue {
    /// An empty queue that holds up to `capacity` jobs.
    pub fn new(capacity: usize) -> (r: JobQueue)
        ensures
            r@.jobs == Seq::<JobView>::empty(),
            r@.limit == capacity,
    {
        let r = JobQueue { items: VecDeque::new(), capacity };
        assert(job_views(r.items@) =~= Seq::<JobView>::empty());
        r
    }

    pub fn len(&self) -> (r: usize)
        ensures
            r == self@.jobs.len(),
    {
        self.items.len()
    }

    pub fn capacity(&self) -> (r: usize)
        ensures
            r == self@.limit,
    {
        self.capacity
    }

    pub fn is_empty(&self) -> (r: bool)
        ensures
            r == (self@.jobs.len() == 0),
    {
        self.items.len() == 0
    }

    pub fn is_full(&self) -> (r: bool)
        ensures
            r == self@.is_full(),
    {
        self.items.len() >= self.capacity
    }

    /// The non-blocking enqueue. Where the queue is full the job is turned
    /// away and the queue stays as it was.
    pub fn try_send(&mut self, job: Job) -> (r: Result<(), QueueFull>)
        ensures
            final(self)@ == old(self)@.offer(job@),
            r is Err <==> old(self)@.is_full(),
            r matches Err(e) ==> e.0 == job,
    {
        if self.items.len() >= self.capacity {
            Err(QueueFull(job))
        } else {
            self.items.push_back(job);
            assert(job_views(self.items@) =~= job_views(old(self).items@).push(job@));
            Ok(())
        }
    }

    /// One attempt of the blocking enqueue. It never drops a job: where the
    /// queue is full the job comes back to be sent again once there is room.
    pub fn send(&mut self, job: Job) -> (r: Enqueue)
        ensures
            final(self)@ == old(self)@.offer(job@),
            r is Wait <==> old(self)@.is_full(),
            r matches Enqueue::Wait(j) ==> j == job,
    {
        match self.try_send(job) {
            Ok(()) => Enqueue::Accepted,
            Err(QueueFull(j)) => Enqueue::Wait(j),
        }
    }

    /// Takes the oldest job out of the queue.
    pub fn recv(&mut self) -> (r: Option<Job>)
        ensures
            final(self)@ == old(self)@.take(),
            r is None <==> old(self)@.jobs.len() == 0,
            r matches Some(j) ==> j@ == old(self)@.jobs[0],
    {
        let r = self.items.pop_front();
        proof {
            if r is Some {
                assert(job_views(self.items@) =~= job_views(old(self).items@).skip(1));
            }
        }
        r
    }

    /// Drops every job that waits.
    pub fn clear(&mut self)
        ensures
            final(self)@.jobs == Seq::<JobView>::empty(),
            final(self)@.limit == old(self)@.limit,
    {
        self.items.clear();
        assert(job_views(self.items@) =~= Seq::<JobView>::empty());
    }
}

/// A full queue turns every enqueue away: however many jobs are offered, it
/// stays as it was, and so does its length.
pub proof fn lemma_full_queue_turns_away(queue: QueueView, jobs: Seq<JobView>)
    requires
        queue.is_full(),
    ensures
        queue.offer_all(jobs) == queue,
    decreases jobs.len(),
{
    if jobs.len() > 0 {
        lemma_full_queue_turns_away(queue, jobs.drop_last());
    }
}

/// A job that waits for room in a full queue gets in once one job was taken
/// out, and not before: offers alone leave the queue full, and after one
/// dequeue the next offer is taken in at the end.
pub proof fn lemma_room_after_dequeue(queue: QueueView, others: Seq<JobView>, job: JobView)
    requires
        queue.wf(),
        queue.is_full(),
        queue.limit > 0,
    ensures
        queue.offer_all(others).is_full(),
        queue.offer_all(others).offer(job) == queue,
        !queue.take().is_full(),
        queue.take().offer(job).jobs == queue.jobs.skip(1).push(job),
        queue.take().offer(job).jobs.len() == queue.limit,
{
    lemma_full_queue_turns_away(queue, others);
}

/// Enqueues and dequeues keep a queue within its limit.
pub proof fn lemma_queue_stays_bounded(queue: QueueView, job: JobView)
    requires
        queue.wf(),
    ensures
        queue.offer(job).wf(),
        queue.take().wf(),
{
}

/// The work that a job asks of the processor's surroundings.
#[derive(Debug, PartialEq, Eq)]
pub enum Action {
    /// Load the accounts, renew the tokens of those that are due, and
    /// enqueue a save job for each account that was renewed.
    RefreshAccounts,
    /// Load the accounts, fetch the recent killmails of each, and enqueue a
    /// save job for each killmail reference that came back.
    FetchKillmails,
    /// Load the killmail references that wait for it, fetch the detail of
    /// each, and enqueue a save job for each entity that is stored.
    ResolveKillmails,
    /// Insert the account, or update the one of the same character.
    UpsertAccount(User),
    /// Insert the killmail reference unless it is there already.
    InsertKillmail(Killmail),
    /// Insert the entity unless it is there already.
    InsertEntity(Entity),
}

pub enum ActionView {
    RefreshAccounts,
    FetchKillmails,
    ResolveKillmails,
    UpsertAccount(UserView),
    InsertKillmail(KillmailView),
    InsertEntity(EntityView),
}

impl View for Action {
    type V = ActionView;

    open spec fn view(&self) -> ActionView {
        match self {
            Action::RefreshAccounts => ActionView::RefreshAccounts,
            Action::FetchKillmails => ActionView::FetchKillmails,
            Action::ResolveKillmails => ActionView::ResolveKillmails,
            Action::UpsertAccount(u) => ActionView::UpsertAccount(u@),
            Action::InsertKillmail(k) => ActionView::InsertKillmail(k@),
            Action::InsertEntity(e) => ActionView::InsertEntity(e@),
        }
    }
}

/// The work that each kind of job asks for. A `Stop` job asks for none.
pub open spec fn action_of(job: JobView) -> Option<ActionView> {
    match job {
        JobView::Refresh => Some(ActionView::RefreshAccounts),
        JobView::Killmails => Some(ActionView::FetchKillmails),
        JobView::ResolveKillmails => Some(ActionView::ResolveKillmails),
        JobView::SaveCharacter(u) => Some(ActionView::UpsertAccount(u)),
        JobView::SaveKillmail(k) => Some(ActionView::InsertKillmail(k)),
        JobView::SaveEntity(e) => Some(ActionView::InsertEntity(e)),
        JobView::Stop => None,
    }
}

/// Dispatches a job by its kind.
pub fn dispatch(job: Job) -> (r: Option<Action>)
    ensures
        match action_of(job@) {
            Some(action) => r is Some && r->Some_0@ == action,
            None => r is None,
        },
{
    match job {
        Job::Refresh => Some(Action::RefreshAccounts),
        Job::Killmails => Some(Action::FetchKillmails),
        Job::ResolveKillmails => Some(Action::ResolveKillmails),
        Job::SaveCharacter(u) => Some(Action::UpsertAccount(u)),
        Job::SaveKillmail(k) => Some(Action::InsertKillmail(k)),
        Job::SaveEntity(e) => Some(Action::InsertEntity(e)),
        Job::Stop => None,
    }
}

/// What the processor does next.
#[derive(Debug, PartialEq, Eq)]
pub enum Step {
    /// Nothing waits: come back when a job has been enqueued.
    Idle,
    /// Carry out this work, then come back.
    Run(Action),
    /// The loop is over.
    Halt,
}

/// The one consumer of the job queue. It takes the jobs out in the order in
/// which they went in and hands the work of each to its caller to carry out.
/// It is never told how the work went, so no failure can keep it from the
/// next job; only a `Stop` job ends it.
#[derive(Debug, PartialEq, Eq)]
pub struct Processor {
    client: EsiClient,
    stopped: bool,
}

impl Processor {
    /// Whether a `Stop` job has come through.
    pub closed spec fn stopped(&self) -> bool {
        self.stopped
    }

    /// The credentials with which the processor's jobs talk to the remote
    /// services.
    pub closed spec fn credentials(&self) -> EsiClientView {
        self.client@
    }

    pub fn new(client: &EsiClient) -> (r: Processor)
        ensures
            !r.stopped(),
            r.credentials() == client@,
    {
        Processor { client: client.clone(), stopped: false }
    }

    pub fn client(&self) -> (r: &EsiClient)
        ensures
            r@ == self.credentials(),
    {
        &self.client
    }

    pub fn is_stopped(&self) -> (r: bool)
        ensures
            r == self.stopped(),
    {
        self.stopped
    }

    /// Takes the next job out of the queue and says what to do.
    ///
    /// A processor that was stopped halts and leaves the queue alone. One
    /// that runs is idle on an empty queue; on a `Stop` job it stops, halts
    /// and drops whatever still waits; the work of any other job it hands
    /// out to be done.
    pub fn next(&mut self, queue: &mut JobQueue) -> (r: Step)
        ensures
            final(self).credentials() == old(self).credentials(),
            final(queue)@.limit == old(queue)@.limit,
            old(self).stopped() ==> {
                &&& r is Halt
                &&& final(self).stopped()
                &&& final(queue)@ == old(queue)@
            },
            !old(self).stopped() && old(queue)@.jobs.len() == 0 ==> {
                &&& r is Idle
                &&& !final(self).stopped()
                &&& final(queue)@ == old(queue)@
            },
            !old(self).stopped() && old(queue)@.jobs.len() > 0 && old(queue)@.jobs[0] is Stop ==> {
                &&& r is Halt
                &&& final(self).stopped()
                &&& final(queue)@.jobs == Seq::<JobView>::empty()
            },
            !old(self).stopped() && old(queue)@.jobs.len() > 0 && !(old(queue)@.jobs[0] is Stop)
                ==> {
                &&& r is Run
                &&& Some(r->Run_0@) == action_of(old(queue)@.jobs[0])
                &&& !final(self).stopped()
                &&& final(queue)@ == old(queue)@.take()
            },
    {
        if self.stopped {
            return Step::Halt;
        }
        match queue.recv() {
            None => Step::Idle,
            Some(job) => match dispatch(job) {
                Some(action) => Step::Run(action),
                None => {
                    self.stopped = true;
                    queue.clear();
                    Step::Halt
                },
            },
        }
    }
}

/// For how long after its expiry an account is still renewed, in seconds.
pub const REFRESH_WINDOW: i64 = 20 * 60;

/// Whether an account is renewed at `now`: its access token has not been
/// expired for longer than the window. Without a window every account is.
pub open spec fn is_due(user: User, now: int, window: Option<i64>) -> bool {
    match window {
        Some(w) => user.expires_at > now - w,
        None => true,
    }
}

/// `is_due` as a predicate on accounts.
pub open spec fn due_at(now: int, window: Option<i64>) -> spec_fn(User) -> bool {
    |user: User| is_due(user, now, window)
}

/// Picks the accounts that a refresh job renews, in their order.
pub fn accounts_to_refresh(users: &Vec<User>, now: i64, window: Option<i64>) -> (r: Vec<User>)
    ensures
        r@ == users@.filter(due_at(now as int, window)),
{
    let mut due: Vec<User> = Vec::new();
    let mut i: usize = 0;
    proof {
        reveal(Seq::filter);
        assert(users@.take(0) =~= Seq::<User>::empty());
        assert(due@ =~= users@.take(0).filter(due_at(now as int, window)));
    }
    while i < users.len()
        invariant
            i <= users.len(),
            due@ == users@.take(i as int).filter(due_at(now as int, window)),
        decreases users.len() - i,
    {
        proof {
            assert(users@.take(i + 1) =~= users@.take(i as int).push(users@[i as int]));
            users@.take(i as int).lemma_filter_push(users@[i as int], due_at(now as int, window));
        }
        let keep = match window {
            Some(w) => (users[i].expires_at as i128) > (now as i128) - (w as i128),
            None => true,
        };
        if keep {
            due.push(users[i].clone());
        }
        i += 1;
    }
    assert(users@.take(i as int) =~= users@);
    due
}

} // verus!
