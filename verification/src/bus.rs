use vstd::prelude::*;
use crate::error::DispatchError;

verus! {

// The in-process bus: an ordered, bounded, single-consumer backlog of jobs,
// and a parallel backlog of fire-and-forget events. Producers enqueue from
// any caller; one worker loop drains jobs strictly one at a time, then drains
// events, then sleeps briefly when both backlogs are empty. The loop's
// surrounding I/O (running a job, logging an event, sleeping) is the
// caller's; `next_action` is the decision the loop takes at each turn.

/// An event that the worker loop only observes; its name is what gets logged.
pub trait BusEvent {
    fn name(&self) -> &'static str;
}

/// What the worker loop does next.
pub enum Action<J, E> {
    RunJob(J),
    LogEvent(E),
    Sleep,
}

/// The job and event backlogs, each bounded by `capacity`.
pub struct Queue<J, E> {
    jobs: Vec<J>,
    events: Vec<E>,
    capacity: usize,
}

impl<J, E> Queue<J, E> {
    /// The queued jobs, next to run first.
    pub closed spec fn jobs_seq(&self) -> Seq<J> {
        self.jobs@
    }

    /// The queued events, next to log first.
    pub closed spec fn events_seq(&self) -> Seq<E> {
        self.events@
    }

    pub closed spec fn cap(&self) -> usize {
        self.capacity
    }

    pub fn new(capacity: usize) -> (q: Queue<J, E>)
        ensures
            q.jobs_seq() == Seq::<J>::empty(),
            q.events_seq() == Seq::<E>::empty(),
            q.cap() == capacity,
    {
        Queue { jobs: Vec::new(), events: Vec::new(), capacity }
    }

    /// Enqueues a job without blocking: it fails exactly when the backlog is
    /// at capacity, and the backlog is never silently dropped from.
    pub fn enqueue_job(&mut self, job: J) -> (r: Result<(), DispatchError>)
        ensures
            final(self).cap() == old(self).cap(),
            final(self).events_seq() == old(self).events_seq(),
            r is Ok <==> old(self).jobs_seq().len() < old(self).cap(),
            r is Ok ==> final(self).jobs_seq() == old(self).jobs_seq().push(job),
            r is Err ==> r == Err::<(), DispatchError>(DispatchError::Full)
                && final(self).jobs_seq() == old(self).jobs_seq(),
    {
        if self.jobs.len() < self.capacity {
            self.jobs.push(job);
            Ok(())
        } else {
            Err(DispatchError::Full)
        }
    }

    /// Enqueues an event without blocking; as `enqueue_job`.
    pub fn enqueue_event(&mut self, event: E) -> (r: Result<(), DispatchError>)
        ensures
            final(self).cap() == old(self).cap(),
            final(self).jobs_seq() == old(self).jobs_seq(),
            r is Ok <==> old(self).events_seq().len() < old(self).cap(),
            r is Ok ==> final(self).events_seq() == old(self).events_seq().push(event),
            r is Err ==> r == Err::<(), DispatchError>(DispatchError::Full)
                && final(self).events_seq() == old(self).events_seq(),
    {
        if self.events.len() < self.capacity {
            self.events.push(event);
            Ok(())
        } else {
            Err(DispatchError::Full)
        }
    }

    /// The worker loop's decision at one turn: run the oldest queued job to
    /// completion before anything else; only with no job left, log the oldest
    /// event; with both backlogs empty, sleep briefly and re-check.
    pub fn next_action(&mut self) -> (a: Action<J, E>)
        ensures
            final(self).cap() == old(self).cap(),
            old(self).jobs_seq().len() > 0 ==> (a matches Action::RunJob(j)
                && j == old(self).jobs_seq()[0]
                && final(self).jobs_seq() == old(self).jobs_seq().drop_first()
                && final(self).events_seq() == old(self).events_seq()),
            old(self).jobs_seq().len() == 0 && old(self).events_seq().len() > 0 ==> (a matches
                Action::LogEvent(e) && e == old(self).events_seq()[0]
                && final(self).events_seq() == old(self).events_seq().drop_first()
                && final(self).jobs_seq() == old(self).jobs_seq()),
            old(self).jobs_seq().len() == 0 && old(self).events_seq().len() == 0 ==> a is Sleep
                && final(self).jobs_seq() == old(self).jobs_seq() && final(self).events_seq()
                == old(self).events_seq(),
    {
        if self.jobs.len() > 0 {
            let job = self.jobs.remove(0);
            assert(self.jobs@ =~= old(self).jobs_seq().drop_first());
            Action::RunJob(job)
        } else if self.events.len() > 0 {
            let event = self.events.remove(0);
            assert(self.events@ =~= old(self).events_seq().drop_first());
            Action::LogEvent(event)
        } else {
            Action::Sleep
        }
    }
}

// ------------------------------------------------------------------------
// The worker loop as a transition system. The exec loop around `next_action`
// runs each job to completion before taking another: a `RunJob` turn stands
// for a Start transition, the job's completion for a Finish transition, and
// the loop takes no further turn in between. Over this model the serial-
// reload guarantee is a theorem: two jobs never run at once.

/// The worker's state: the queued jobs, and the job now running if any.
pub ghost struct WorkerState<J> {
    pub pending: Seq<J>,
    pub running: Option<J>,
}

/// One transition of the worker model.
pub ghost enum WorkerStep<J> {
    /// A producer enqueues a job.
    Enqueue(J),
    /// The worker takes the oldest queued job; only possible while no job is
    /// running.
    Start,
    /// The running job's `run` returns.
    Finish,
}

/// The transition relation.
pub open spec fn worker_next<J>(
    pre: WorkerState<J>,
    step: WorkerStep<J>,
    post: WorkerState<J>,
) -> bool {
    match step {
        WorkerStep::Enqueue(j) => post.pending == pre.pending.push(j) && post.running
            == pre.running,
        WorkerStep::Start => pre.running is None && pre.pending.len() > 0 && post.running == Some(
            pre.pending[0],
        ) && post.pending == pre.pending.drop_first(),
        WorkerStep::Finish => pre.running is Some && post.running is None && post.pending
            == pre.pending,
    }
}

/// A run of the worker: it begins idle and every step follows the relation.
pub open spec fn is_worker_run<J>(states: Seq<WorkerState<J>>, steps: Seq<WorkerStep<J>>) -> bool {
    &&& states.len() == steps.len() + 1
    &&& states[0].running is None
    &&& forall|i: int|
        0 <= i < steps.len() ==> worker_next(states[i], #[trigger] steps[i], states[i + 1])
}

proof fn lemma_running_persists<J>(
    states: Seq<WorkerState<J>>,
    steps: Seq<WorkerStep<J>>,
    i: int,
    k: int,
)
    requires
        is_worker_run(states, steps),
        0 <= i <= k <= steps.len(),
        states[i].running is Some,
        forall|m: int| i <= m < k ==> !((#[trigger] steps[m]) is Finish),
    ensures
        states[k].running is Some,
    decreases k - i,
{
    if i < k {
        assert(worker_next(states[i], steps[i], states[i + 1]));
        lemma_running_persists(states, steps, i + 1, k);
    }
}

/// Serial reload: in every run of the worker, between any two job starts the
/// earlier job has finished — at no instant are two jobs' bodies running, so
/// two reloads (of one repository or of two) never overlap in time.
pub proof fn lemma_serial_jobs<J>(
    states: Seq<WorkerState<J>>,
    steps: Seq<WorkerStep<J>>,
    i: int,
    k: int,
)
    requires
        is_worker_run(states, steps),
        0 <= i < k < steps.len(),
        steps[i] is Start,
        steps[k] is Start,
    ensures
        exists|m: int| i < m < k && (#[trigger] steps[m]) is Finish,
{
    if forall|m: int| i < m < k ==> !((#[trigger] steps[m]) is Finish) {
        assert(worker_next(states[i], steps[i], states[i + 1]));
        assert(states[i + 1].running is Some);
        lemma_running_persists(states, steps, i + 1, k);
        assert(worker_next(states[k], steps[k], states[k + 1]));
        assert(false);
    }
}

/// At most one job runs at any instant, in every reachable state: the model
/// carries at most one running job by construction, and a start is enabled
/// only while none is running.
pub proof fn lemma_at_most_one_running<J>(
    states: Seq<WorkerState<J>>,
    steps: Seq<WorkerStep<J>>,
    i: int,
    m: int,
)
    requires
        is_worker_run(states, steps),
        0 <= i <= m < steps.len(),
        steps[i] is Start,
        steps[m] is Start,
        forall|n: int| i < n <= m ==> !((#[trigger] steps[n]) is Finish),
    ensures
        i == m,
{
    if i < m {
        assert(worker_next(states[i], steps[i], states[i + 1]));
        lemma_running_persists(states, steps, i + 1, m);
        assert(worker_next(states[m], steps[m], states[m + 1]));
    }
}

} // verus!
