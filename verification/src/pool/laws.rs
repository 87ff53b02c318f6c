use crate::pool::intake::{Delivery, IntakeView};
use crate::pool::thread_pool::{PoolState, PoolView, Progress, Teardown};
use crate::pool::worker::Phase;
use vstd::prelude::*;

verus! {

/// Anything that can happen to a pool once it is built.
pub enum Event<J> {
    /// A caller submits a job.
    Submit(J),
    /// A worker goes for the next job.
    Receive(u32),
    /// A worker reports that its job has run to the end.
    Complete(u32),
    /// The owner takes one step of teardown.
    Teardown,
    /// The owner reports that a worker's thread has ended, cleanly or not.
    Joined(u32, bool),
}

impl<J, H> PoolView<J, H> {
    /// The state after one event.
    pub open spec fn apply(self, event: Event<J>) -> Self {
        match event {
            Event::Submit(job) => self.submit(job),
            Event::Receive(id) => self.receive(id),
            Event::Complete(id) => self.complete(id),
            Event::Teardown => self.teardown(),
            Event::Joined(id, clean) => self.joined(id, clean),
        }
    }

    /// The state after a run of events, the first of them first.
    pub open spec fn run(self, events: Seq<Event<J>>) -> Self
        decreases events.len(),
    {
        if events.len() == 0 {
            self
        } else {
            self.run(events.drop_last()).apply(events.last())
        }
    }
}

/// An intake starts well formed and stays so: while it is open it has
/// dropped nothing, and once it is closed it holds nothing and stays closed.
pub proof fn law_intake_stays_well_formed<J>(intake: IntakeView<J>, job: J)
    requires
        intake.wf(),
    ensures
        IntakeView::<J>::fresh().wf(),
        intake.submit(job).wf(),
        intake.take().wf(),
        intake.close().wf(),
        !intake.open ==> intake.submit(job) == intake && intake.take() == intake && intake.close()
            == intake,
{
    if !intake.open {
        assert(intake.close().pending =~= intake.pending);
    }
}

/// Jobs leave an intake in the order in which they came. An open intake
/// queues a submitted job behind every job it holds, and the job it delivers
/// next is the oldest it holds: the accepted job right behind those that
/// were delivered before.
pub proof fn law_intake_is_first_in_first_out<J>(intake: IntakeView<J>, job: J)
    requires
        intake.wf(),
        intake.open,
    ensures
        intake.submit(job).accepted() == intake.accepted().push(job),
        intake.submit(job).pending.last() == job,
        intake.take().accepted() == intake.accepted(),
        intake.pending.len() > 0 ==> {
            &&& intake.delivery() == Delivery::Job(intake.pending[0])
            &&& intake.take().delivered.last() == intake.pending[0]
            &&& intake.take().delivered.len() == intake.delivered.len() + 1
            &&& intake.accepted()[intake.delivered.len() as int] == intake.pending[0]
        },
{
}

/// The scan for the next worker to join stops at the first worker from
/// `from` on that has not been joined, and at the end if there is none.
pub proof fn lemma_scan<J, H>(pool: PoolView<J, H>, from: int)
    requires
        0 <= from <= pool.workers.len(),
    ensures
        from <= pool.scan(from) <= pool.workers.len(),
        forall|i: int| from <= i < pool.scan(from) ==> (#[trigger] pool.workers[i]).joined(),
        pool.scan(from) < pool.workers.len() ==> !pool.workers[pool.scan(from)].joined(),
    decreases pool.workers.len() - from,
{
    if from < pool.workers.len() && pool.workers[from].joined() {
        lemma_scan(pool, from + 1);
    }
}

/// A pool that was just built is well formed and ready, and its workers
/// carry the distinct numbers from 0 up to its capacity.
pub proof fn law_built_pool_is_ready<J, H>(pool: PoolView<J, H>, capacity: u32)
    requires
        capacity >= 1,
        pool.built(capacity),
    ensures
        pool.wf(),
        pool.state() == PoolState::Ready,
        pool.workers.len() == capacity,
        forall|i: int| 0 <= i < capacity ==> (#[trigger] pool.workers[i]).id == i,
        forall|i: int, j: int|
            0 <= i < j < capacity ==> (#[trigger] pool.workers[i]).id != (
            #[trigger] pool.workers[j]).id,
{
}

/// No event breaks a pool: the number and the numbering of its workers stay,
/// and no handle leaves and no worker ends while the sending side is open.
pub proof fn law_event_keeps_pool_well_formed<J, H>(pool: PoolView<J, H>, event: Event<J>)
    requires
        pool.wf(),
    ensures
        pool.apply(event).wf(),
        pool.apply(event).workers.len() == pool.workers.len(),
{
    lemma_scan(pool, 0);
}

/// A worker's life goes one way. No event changes a worker's number, puts a
/// handle back or exchanges it, or brings back a worker that has left its
/// loop. A worker that is running a job leaves its loop only by being
/// joined: the intake's closure does not reach it before its job is over.
pub proof fn law_worker_life_goes_one_way<J, H>(pool: PoolView<J, H>, event: Event<J>, i: int)
    requires
        pool.wf(),
        0 <= i < pool.workers.len(),
    ensures
        ({
            let before = pool.workers[i];
            let after = pool.apply(event).workers[i];
            &&& after.id == before.id
            &&& before.thread is None ==> after.thread is None
            &&& before.thread is Some ==> after.thread is None || after.thread == before.thread
            &&& before.phase.terminated() ==> after.phase.terminated()
            &&& before.phase is Running && after.phase.terminated() ==> event is Joined
        }),
{
    lemma_scan(pool, 0);
}

/// No run of events breaks a pool.
pub proof fn law_run_keeps_pool_well_formed<J, H>(pool: PoolView<J, H>, events: Seq<Event<J>>)
    requires
        pool.wf(),
    ensures
        pool.run(events).wf(),
        pool.run(events).workers.len() == pool.workers.len(),
    decreases events.len(),
{
    if events.len() > 0 {
        law_run_keeps_pool_well_formed(pool, events.drop_last());
        law_event_keeps_pool_well_formed(pool.run(events.drop_last()), events.last());
    }
}

/// An event only ever adds to what the intake has seen. A job that was
/// accepted stays accepted, at its place in submission order; a job that was
/// delivered stays delivered; a job that was dropped stays dropped. Only a
/// submission to an open intake adds an accepted job, behind all others.
pub proof fn law_event_extends_history<J, H>(pool: PoolView<J, H>, event: Event<J>)
    requires
        pool.wf(),
    ensures
        pool.intake.delivered.is_prefix_of(pool.apply(event).intake.delivered),
        pool.intake.dropped.is_prefix_of(pool.apply(event).intake.dropped),
        pool.apply(event).intake.accepted() == (match event {
            Event::Submit(job) if pool.intake.open => pool.intake.accepted().push(job),
            _ => pool.intake.accepted(),
        }),
{
}

/// A run begins once and ends once: an event keeps every run at its place
/// and with the worker that began it, and leaves a run that is over as it
/// ended.
pub proof fn law_event_keeps_runs<J, H>(pool: PoolView<J, H>, event: Event<J>, k: int)
    requires
        pool.wf(),
        0 <= k < pool.runs.len(),
    ensures
        k < pool.apply(event).runs.len(),
        pool.apply(event).runs[k].worker == pool.runs[k].worker,
        !(pool.runs[k].progress is Underway) ==> pool.apply(event).runs[k] == pool.runs[k],
{
    lemma_scan(pool, 0);
}

/// Whatever happens, a run stays with the worker that began it, and a run
/// that is over stays as it ended.
pub proof fn law_run_begins_and_ends_once<J, H>(
    pool: PoolView<J, H>,
    events: Seq<Event<J>>,
    k: int,
)
    requires
        pool.wf(),
        0 <= k < pool.runs.len(),
    ensures
        k < pool.run(events).runs.len(),
        pool.run(events).runs[k].worker == pool.runs[k].worker,
        !(pool.runs[k].progress is Underway) ==> pool.run(events).runs[k] == pool.runs[k],
    decreases events.len(),
{
    if events.len() > 0 {
        let before = pool.run(events.drop_last());
        law_run_begins_and_ends_once(pool, events.drop_last(), k);
        law_run_keeps_pool_well_formed(pool, events.drop_last());
        law_event_keeps_runs(before, events.last(), k);
    }
}

/// A worker runs one job at a time: two runs that are underway are on two
/// workers.
pub proof fn law_one_job_per_worker<J, H>(pool: PoolView<J, H>, k: int, l: int)
    requires
        pool.wf(),
        0 <= k < l < pool.runs.len(),
        pool.runs[k].progress is Underway,
        pool.runs[l].progress is Underway,
    ensures
        pool.runs[k].worker != pool.runs[l].worker,
{
}

/// A job that a ready pool accepts is run at most once, and by the time the
/// pool is terminated it has been run or dropped. Whatever happens after the
/// job was accepted: while it is not delivered it has no run; once it is
/// delivered it has one run, on one worker of the pool; and when the pool is
/// terminated, that run is over, or else the job was dropped and has none.
pub proof fn law_accepted_job_runs_once<J, H>(
    pool: PoolView<J, H>,
    job: J,
    events: Seq<Event<J>>,
)
    requires
        pool.wf(),
        pool.intake.open,
    ensures
        ({
            let place = pool.intake.accepted().len() as int;
            let end = pool.submit(job).run(events);
            let delivered = end.intake.delivered.len() as int;
            &&& end.runs.len() == delivered
            &&& place < delivered ==> {
                &&& end.intake.delivered[place] == job
                &&& end.runs[place].worker < end.workers.len()
                &&& end.state() == PoolState::Terminated ==> !(end.runs[place].progress
                    is Underway)
            }
            &&& place >= delivered && end.state() == PoolState::Terminated ==> {
                &&& place - delivered < end.intake.dropped.len()
                &&& end.intake.dropped[place - delivered] == job
            }
        }),
{
    law_accepted_job_is_accounted_for_once(pool, job, events);
    let end = pool.submit(job).run(events);
    law_run_keeps_pool_well_formed(pool.submit(job), events);
    law_terminated_pool_is_quiet(end);
}

/// Whatever happens after a job was accepted, the job keeps its place in
/// submission order, and it is in exactly one of three places: handed to a
/// worker, once; still queued; or dropped unexecuted. Jobs leave the queue in
/// submission order.
pub proof fn law_accepted_job_is_accounted_for_once<J, H>(
    pool: PoolView<J, H>,
    job: J,
    events: Seq<Event<J>>,
)
    requires
        pool.wf(),
        pool.intake.open,
    ensures
        ({
            let place = pool.intake.accepted().len() as int;
            let end = pool.submit(job).run(events).intake;
            let delivered = end.delivered.len() as int;
            let queued = end.pending.len() as int;
            &&& place < end.accepted().len()
            &&& end.accepted()[place] == job
            &&& end.accepted().len() == delivered + queued + end.dropped.len()
            &&& place < delivered ==> end.delivered[place] == job
            &&& delivered <= place < delivered + queued ==> end.pending[place - delivered] == job
            &&& delivered + queued <= place ==> end.dropped[place - delivered - queued] == job
        }),
{
    let begin = pool.submit(job);
    let place = pool.intake.accepted().len() as int;
    lemma_run_extends_history(begin, events);
    let end = begin.run(events).intake;
    let all = end.accepted();
    assert(all.subrange(0, begin.intake.accepted().len() as int)[place] == all[place]);
}

/// A run of events only ever adds to what the intake has seen.
pub proof fn lemma_run_extends_history<J, H>(pool: PoolView<J, H>, events: Seq<Event<J>>)
    requires
        pool.wf(),
    ensures
        pool.run(events).wf(),
        pool.intake.accepted().is_prefix_of(pool.run(events).intake.accepted()),
        pool.intake.delivered.is_prefix_of(pool.run(events).intake.delivered),
        pool.intake.dropped.is_prefix_of(pool.run(events).intake.dropped),
    decreases events.len(),
{
    if events.len() > 0 {
        let before = pool.run(events.drop_last());
        lemma_run_extends_history(pool, events.drop_last());
        law_event_keeps_pool_well_formed(before, events.last());
        law_event_extends_history(before, events.last());
    }
}

/// A job that was handed to a worker stays handed out, whatever happens
/// later: closing the sending side takes nothing back.
pub proof fn law_delivered_job_stays_delivered<J, H>(
    pool: PoolView<J, H>,
    events: Seq<Event<J>>,
    place: int,
)
    requires
        pool.wf(),
        0 <= place < pool.intake.delivered.len(),
    ensures
        place < pool.run(events).intake.delivered.len(),
        pool.run(events).intake.delivered[place] == pool.intake.delivered[place],
{
    lemma_run_extends_history(pool, events);
}

/// Teardown is over only when every worker has been joined. In a terminated
/// pool no handle is left, no worker is waiting or running, no run is
/// underway, and nothing is queued: every job that was accepted has either
/// been handed to a worker and its run is over, or was dropped unexecuted.
pub proof fn law_terminated_pool_is_quiet<J, H>(pool: PoolView<J, H>)
    requires
        pool.wf(),
    ensures
        pool.teardown_step() is Done <==> pool.state() == PoolState::Terminated,
        pool.state() == PoolState::Terminated ==> {
            &&& !pool.intake.open
            &&& pool.intake.pending.len() == 0
            &&& pool.intake.accepted() == pool.intake.delivered + pool.intake.dropped
            &&& forall|i: int|
                0 <= i < pool.workers.len() ==> {
                    let w = #[trigger] pool.workers[i];
                    &&& w.thread is None
                    &&& w.phase.terminated()
                }
            &&& forall|k: int|
                0 <= k < pool.runs.len() ==> !((#[trigger] pool.runs[k]).progress is Underway)
        },
{
    lemma_scan(pool, 0);
}

/// Teardown closes the sending side before it hands out any handle, and it
/// hands out handles in the order of the workers' numbers: when worker `id`
/// is to be joined, every worker with a lower number has been joined.
pub proof fn law_teardown_joins_in_order<J, H>(pool: PoolView<J, H>)
    requires
        pool.wf(),
    ensures
        pool.intake.open ==> pool.teardown_step() is SenderClosed && pool.teardown().workers
            == pool.workers,
        pool.teardown_step() matches Teardown::Join { id, thread } ==> {
            &&& !pool.intake.open
            &&& id < pool.workers.len()
            &&& pool.workers[id as int].thread == Some(thread)
            &&& pool.teardown().workers[id as int].thread is None
            &&& forall|i: int| 0 <= i < id ==> (#[trigger] pool.workers[i]).joined()
        },
        pool.teardown_step() matches Teardown::Joining { id } ==> {
            &&& !pool.intake.open
            &&& id < pool.workers.len()
            &&& !pool.workers[id as int].phase.terminated()
            &&& forall|i: int| 0 <= i < id ==> (#[trigger] pool.workers[i]).joined()
        },
{
    lemma_scan(pool, 0);
}

/// The jobs that are queued when teardown begins are dropped, all of them
/// and no others, and none of them is ever handed to a worker: whatever
/// happens afterwards, the intake stays as teardown left it.
pub proof fn law_queued_jobs_are_dropped_at_teardown<J, H>(
    pool: PoolView<J, H>,
    events: Seq<Event<J>>,
)
    requires
        pool.wf(),
        pool.intake.open,
    ensures
        ({
            let end = pool.teardown().run(events).intake;
            &&& !end.open
            &&& end.pending.len() == 0
            &&& end.delivered == pool.intake.delivered
            &&& end.dropped == pool.intake.pending
        }),
{
    let closed = pool.teardown();
    lemma_scan(pool, 0);
    law_closed_intake_is_final(closed, events);
}

/// Once the sending side is closed nothing reaches the intake and nothing
/// leaves it. A job submitted from then on is refused, whatever happened in
/// between, and no worker is handed a job again.
pub proof fn law_closed_intake_is_final<J, H>(pool: PoolView<J, H>, events: Seq<Event<J>>)
    requires
        pool.wf(),
        !pool.intake.open,
    ensures
        pool.run(events).wf(),
        pool.run(events).intake == pool.intake,
        forall|job: J| #[trigger] pool.run(events).submit(job) == pool.run(events),
        forall|id: u32| !(#[trigger] pool.run(events).delivery(id) matches Some(Delivery::Job(_))),
    decreases events.len(),
{
    if events.len() > 0 {
        let before = pool.run(events.drop_last());
        law_closed_intake_is_final(pool, events.drop_last());
        law_event_keeps_pool_well_formed(before, events.last());
        lemma_scan(before, 0);
    }
}

/// While a worker is running a job it is handed nothing, and the pool stays
/// as it is; it is waiting again once it reports that the job is over.
pub proof fn law_running_worker_takes_nothing<J, H>(pool: PoolView<J, H>, id: u32)
    requires
        pool.wf(),
        pool.running(id),
    ensures
        pool.delivery(id) is None,
        pool.receive(id) == pool,
        pool.complete(id).waiting(id),
{
}

} // verus!
