use crate::pool::intake::{Delivery, Intake, IntakeView, SubmitError};
use crate::pool::worker::{Phase, Worker, WorkerView};
use vstd::prelude::*;

verus! {

/// A pool was asked for with no workers.
#[derive(Debug, Clone, Copy, PartialEq, Eq, Structural)]
pub struct PoolCreationError;

impl PoolCreationError {
    /// The error in words.
    pub fn message(&self) -> (text: &'static str)
        ensures
            text@ == "Pool cannot be created with no threads"@,
    {
        "Pool cannot be created with no threads"
    }
}

/// Where a pool is in its life. A pool is ready as soon as it is built.
#[derive(Debug, Clone, Copy, PartialEq, Eq, Structural)]
pub enum PoolState {
    /// Accepting jobs.
    Ready,
    /// The sending side is closed; some worker has not been joined yet.
    ShuttingDown,
    /// The sending side is closed and every worker has been joined.
    Terminated,
}

/// What teardown has just done, or what it is waiting for.
#[derive(Debug, PartialEq, Eq)]
pub enum Teardown<H> {
    /// The sending side was open and is now closed, and the jobs still
    /// queued, `discarded` of them, are gone. Every waiting worker is to be
    /// woken so that it sees the closure.
    SenderClosed { discarded: usize },
    /// The handle of the next worker to join. Wait for its thread to end, then
    /// report with `joined`.
    Join { id: u32, thread: H },
    /// The handle of worker `id` was handed out, and its join has not been
    /// reported yet.
    Joining { id: u32 },
    /// Every worker has been joined.
    Done,
}

/// How far the run of a job has come.
pub enum Progress {
    /// A worker is running the job.
    Underway,
    /// The job has run to the end.
    Finished,
    /// The thread that was running the job died before the job ended.
    Aborted,
}

/// The run of one job that was handed to a worker.
pub struct Run {
    /// The number of the worker that was handed the job.
    pub worker: u32,
    /// How far the run has come.
    pub progress: Progress,
}

/// The abstract state of a pool: its workers by number, its intake, and the
/// record of every run.
pub struct PoolView<J, H> {
    pub workers: Seq<WorkerView<H>>,
    pub intake: IntakeView<J>,
    /// One run for each job that the intake has delivered, in that order:
    /// `runs[k]` is the run of `intake.delivered[k]`.
    pub runs: Seq<Run>,
    /// For each worker that is running a job, the place of that run in `runs`.
    pub current: Seq<int>,
}

impl<J, H> PoolView<J, H> {
    /// What holds of every pool, whatever has happened to it since it was
    /// built: it has at least one worker; worker `i` stands at position `i`;
    /// no handle leaves and no worker ends before the sending side is closed;
    /// every delivered job has one run; and the runs that are underway are
    /// those of the workers that are running, one each.
    pub open spec fn wf(self) -> bool {
        &&& 0 < self.workers.len() <= u32::MAX
        &&& self.intake.wf()
        &&& self.runs.len() == self.intake.delivered.len()
        &&& self.current.len() == self.workers.len()
        &&& forall|i: int|
            0 <= i < self.workers.len() ==> {
                let w = #[trigger] self.workers[i];
                &&& w.id == i
                &&& (w.thread is None ==> !self.intake.open)
                &&& (w.phase.terminated() ==> !self.intake.open)
                &&& (w.phase is Failed ==> w.thread is None)
                &&& (w.phase is Running ==> self.runs_now(i, self.current[i]))
            }
        &&& forall|k: int|
            0 <= k < self.runs.len() ==> {
                let run = #[trigger] self.runs[k];
                &&& run.worker < self.workers.len()
                &&& (run.progress is Underway ==> self.workers[run.worker as int].phase is Running
                    && self.current[run.worker as int] == k)
            }
    }

    /// Run `k` is underway, and it is worker `i` that is running it.
    pub open spec fn runs_now(self, i: int, k: int) -> bool {
        &&& 0 <= k < self.runs.len()
        &&& self.runs[k].worker == i
        &&& self.runs[k].progress is Underway
    }

    /// A pool as `build` leaves it: `capacity` waiting workers numbered from
    /// 0, each with its handle, and an open intake that has seen no job.
    pub open spec fn built(self, capacity: u32) -> bool {
        &&& self.workers.len() == capacity
        &&& self.intake == IntakeView::<J>::fresh()
        &&& self.runs.len() == 0
        &&& self.current.len() == capacity
        &&& forall|i: int|
            0 <= i < capacity ==> {
                let w = #[trigger] self.workers[i];
                &&& w.id == i
                &&& w.phase == Phase::Waiting
                &&& w.thread is Some
            }
    }

    /// Where the pool is in its life.
    pub open spec fn state(self) -> PoolState {
        if self.intake.open {
            PoolState::Ready
        } else if self.next_to_join() < self.workers.len() {
            PoolState::ShuttingDown
        } else {
            PoolState::Terminated
        }
    }

    /// The state after an attempt to submit `job`.
    pub open spec fn submit(self, job: J) -> Self {
        PoolView { intake: self.intake.submit(job), ..self }
    }

    /// Worker `id` exists and is in its loop, not running a job.
    pub open spec fn waiting(self, id: u32) -> bool {
        id < self.workers.len() && self.workers[id as int].phase is Waiting
    }

    /// Worker `id` exists and is running a job.
    pub open spec fn running(self, id: u32) -> bool {
        id < self.workers.len() && self.workers[id as int].phase is Running
    }

    /// This pool with worker `id` in another phase.
    pub open spec fn with_phase(self, id: u32, phase: Phase) -> Self {
        PoolView {
            workers: self.workers.update(id as int, self.workers[id as int].with_phase(phase)),
            ..self
        }
    }

    /// This pool after worker `id` began the run of the job that was just
    /// delivered.
    pub open spec fn begin_run(self, id: u32) -> Self {
        PoolView {
            runs: self.runs.push(Run { worker: id, progress: Progress::Underway }),
            current: self.current.update(id as int, self.runs.len() as int),
            ..self
        }
    }

    /// This pool after the run that worker `id` was on came to an end.
    pub open spec fn end_run(self, id: u32, progress: Progress) -> Self {
        let k = self.current[id as int];
        PoolView { runs: self.runs.update(k, Run { progress, ..self.runs[k] }), ..self }
    }

    /// What worker `id` is told when it goes for the next job: nothing, unless
    /// it is waiting.
    pub open spec fn delivery(self, id: u32) -> Option<Delivery<J>> {
        if self.waiting(id) {
            Some(self.intake.delivery())
        } else {
            None
        }
    }

    /// The state after worker `id` went for the next job.
    pub open spec fn receive(self, id: u32) -> Self {
        if !self.waiting(id) {
            self
        } else {
            match self.intake.delivery() {
                Delivery::Job(_) => PoolView {
                    intake: self.intake.take(),
                    ..self.with_phase(id, Phase::Running).begin_run(id)
                },
                Delivery::Pending => self,
                Delivery::Disconnected => self.with_phase(id, Phase::Exited),
            }
        }
    }

    /// The state after worker `id` reported that its job has run to the end.
    pub open spec fn complete(self, id: u32) -> Self {
        if self.running(id) {
            self.with_phase(id, Phase::Waiting).end_run(id, Progress::Finished)
        } else {
            self
        }
    }

    /// The position of the first worker at or after `from` that has not been
    /// joined; the number of workers if there is none.
    pub open spec fn scan(self, from: int) -> int
        decreases self.workers.len() - from,
    {
        if from < 0 || from >= self.workers.len() {
            self.workers.len() as int
        } else if !self.workers[from].joined() {
            from
        } else {
            self.scan(from + 1)
        }
    }

    /// The position of the first worker that has not been joined; the number
    /// of workers if every one has been.
    pub open spec fn next_to_join(self) -> int {
        self.scan(0)
    }

    /// What one step of teardown returns.
    pub open spec fn teardown_step(self) -> Teardown<H> {
        let k = self.next_to_join();
        if self.intake.open {
            Teardown::SenderClosed { discarded: self.intake.pending.len() as usize }
        } else if k >= self.workers.len() {
            Teardown::Done
        } else {
            match self.workers[k].thread {
                Some(thread) => Teardown::Join { id: self.workers[k].id, thread },
                None => Teardown::Joining { id: self.workers[k].id },
            }
        }
    }

    /// The state after one step of teardown.
    pub open spec fn teardown(self) -> Self {
        let k = self.next_to_join();
        if self.intake.open {
            PoolView { intake: self.intake.close(), ..self }
        } else if k >= self.workers.len() {
            self
        } else {
            PoolView { workers: self.workers.update(k, self.workers[k].without_thread()), ..self }
        }
    }

    /// The handle of worker `id` has been handed out.
    pub open spec fn joining(self, id: u32) -> bool {
        id < self.workers.len() && self.workers[id as int].thread is None
    }

    /// The state after the join of worker `id` was reported: `clean` says
    /// whether its thread had ended normally. A run that the worker was on is
    /// over with its thread.
    pub open spec fn joined(self, id: u32, clean: bool) -> Self {
        if !self.joining(id) {
            self
        } else if clean {
            let gone = self.with_phase(id, Phase::Exited);
            if self.running(id) {
                gone.end_run(id, Progress::Finished)
            } else {
                gone
            }
        } else {
            let gone = self.with_phase(id, Phase::Failed);
            if self.running(id) {
                gone.end_run(id, Progress::Aborted)
            } else {
                gone
            }
        }
    }
}

/// A fixed set of workers and the intake that feeds them.
///
/// The set is never resized. A worker whose thread dies while it runs a job
/// is not replaced: it stays on that job, takes no other, and is found
/// failed when teardown joins it, so the pool goes on with fewer workers.
pub struct ThreadPool<J, H> {
    workers: Vec<Worker<H>>,
    intake: Intake<J>,
    runs: Ghost<Seq<Run>>,
    current: Ghost<Seq<int>>,
}

impl<J, H> View for ThreadPool<J, H> {
    type V = PoolView<J, H>;

    closed spec fn view(&self) -> PoolView<J, H> {
        PoolView {
            workers: self.workers@.map_values(|w: Worker<H>| w@),
            intake: self.intake@,
            runs: self.runs@,
            current: self.current@,
        }
    }
}

impl<J, H> ThreadPool<J, H> {
    /// Builds a pool of `capacity` workers, numbered from 0 in the order in
    /// which `spawn` starts their threads, around one open, empty intake.
    /// A pool needs at least one worker.
    pub fn build<F: Fn(u32) -> H>(capacity: u32, spawn: F) -> (r: Result<
        ThreadPool<J, H>,
        PoolCreationError,
    >)
        requires
            forall|id: u32| id < capacity ==> call_requires(spawn, (id,)),
        ensures
            r is Err <==> capacity == 0,
            r matches Ok(pool) ==> {
                &&& pool@.built(capacity)
                &&& pool@.wf()
                &&& forall|id: u32|
                    id < capacity ==> call_ensures(
                        spawn,
                        (id,),
                        (#[trigger] pool@.workers[id as int]).thread->0,
                    )
            },
    {
        if capacity == 0 {
            return Err(PoolCreationError);
        }
        let intake: Intake<J> = Intake::new();
        let mut workers: Vec<Worker<H>> = Vec::new();
        let mut id: u32 = 0;
        while id < capacity
            invariant
                id <= capacity,
                workers@.len() == id,
                forall|k: u32| k < capacity ==> call_requires(spawn, (k,)),
                forall|i: int|
                    0 <= i < id ==> {
                        let w = (#[trigger] workers@[i])@;
                        &&& w.id == i
                        &&& w.phase == Phase::Waiting
                        &&& w.thread is Some
                        &&& call_ensures(spawn, (i as u32,), w.thread->0)
                    },
            decreases capacity - id,
        {
            let worker = Worker::new(id, &spawn);
            workers.push(worker);
            id = id + 1;
        }
        let pool = ThreadPool {
            workers,
            intake,
            runs: Ghost(Seq::empty()),
            current: Ghost(Seq::new(capacity as nat, |i: int| 0)),
        };
        Ok(pool)
    }

    /// The workers, by number.
    pub fn workers(&self) -> (workers: &Vec<Worker<H>>)
        ensures
            workers@.len() == self@.workers.len(),
            forall|i: int| 0 <= i < workers@.len() ==> (#[trigger] workers@[i])@ == self@.workers[i],
    {
        &self.workers
    }

    /// The sending side of the intake, while the pool accepts jobs.
    pub fn sender(&self) -> (r: Result<&Intake<J>, &'static str>)
        ensures
            r is Ok <==> self@.intake.open,
            r matches Ok(intake) ==> intake@ == self@.intake,
            r matches Err(text) ==> text@ == "Unable to get reference to sender."@,
    {
        if self.intake.is_open() {
            Ok(&self.intake)
        } else {
            Err("Unable to get reference to sender.")
        }
    }

    /// Where the pool is in its life.
    pub fn state(&self) -> (state: PoolState)
        ensures
            state == self@.state(),
    {
        if self.intake.is_open() {
            PoolState::Ready
        } else if self.first_unjoined() < self.workers.len() {
            PoolState::ShuttingDown
        } else {
            PoolState::Terminated
        }
    }

    /// Queues `job` behind every job already queued. Once teardown has begun
    /// the job is refused instead: it is discarded and never handed to a
    /// worker.
    pub fn execute(&mut self, job: J) -> (r: Result<(), SubmitError>)
        ensures
            final(self)@ == old(self)@.submit(job),
            r is Ok <==> old(self)@.intake.open,
    {
        self.intake.submit(job)
    }

    /// Worker `id` goes for the next job. A waiting worker is handed the
    /// oldest queued job and is running from now on; or it is told to keep
    /// waiting, because nothing is queued; or it is told that the intake is
    /// closed, and has exited. A caller that is no waiting worker of this
    /// pool is told nothing, and nothing changes.
    pub fn receive(&mut self, id: u32) -> (r: Option<Delivery<J>>)
        ensures
            final(self)@ == old(self)@.receive(id),
            r == old(self)@.delivery(id),
    {
        let i = id as usize;
        if i >= self.workers.len() {
            return None;
        }
        if self.workers[i].phase() != Phase::Waiting {
            return None;
        }
        let delivery = self.intake.take();
        match &delivery {
            Delivery::Job(_) => {
                self.workers[i].set_phase(Phase::Running);
                proof {
                    self.current@ = self.current@.update(i as int, self.runs@.len() as int);
                    self.runs@ = self.runs@.push(Run { worker: id, progress: Progress::Underway });
                }
            },
            Delivery::Pending => {},
            Delivery::Disconnected => {
                self.workers[i].set_phase(Phase::Exited);
            },
        }
        proof {
            assert(final(self)@.workers =~= old(self)@.receive(id).workers);
        }
        Some(delivery)
    }

    /// Worker `id` reports that the job it was running has run to the end: it
    /// is waiting again. Returns whether `id` is a worker that was running.
    pub fn complete(&mut self, id: u32) -> (was_running: bool)
        ensures
            final(self)@ == old(self)@.complete(id),
            was_running == old(self)@.running(id),
    {
        let i = id as usize;
        if i >= self.workers.len() {
            return false;
        }
        if self.workers[i].phase() != Phase::Running {
            return false;
        }
        self.workers[i].set_phase(Phase::Waiting);
        proof {
            let k = self.current@[i as int];
            self.runs@ = self.runs@.update(k, Run { progress: Progress::Finished, ..self.runs@[k] });
            assert(final(self)@.workers =~= old(self)@.complete(id).workers);
        }
        true
    }

    /// One step of teardown. The first step closes the sending side, which
    /// discards the jobs still queued. Each later step hands out the handle
    /// of the lowest-numbered worker that has not been joined, or says that
    /// its join is still awaited, until every worker has been joined.
    pub fn teardown_step(&mut self) -> (step: Teardown<H>)
        ensures
            final(self)@ == old(self)@.teardown(),
            step == old(self)@.teardown_step(),
    {
        if self.intake.is_open() {
            let discarded = self.intake.close();
            return Teardown::SenderClosed { discarded };
        }
        let k = self.first_unjoined();
        if k >= self.workers.len() {
            return Teardown::Done;
        }
        let id = self.workers[k].id();
        let taken = self.workers[k].take_thread();
        proof {
            assert(final(self)@.workers =~= old(self)@.teardown().workers);
        }
        match taken {
            Some(thread) => Teardown::Join { id, thread },
            None => Teardown::Joining { id },
        }
    }

    /// Reports that the thread of worker `id`, whose handle teardown handed
    /// out, has ended: normally if `clean`, abnormally if not. Either way the
    /// worker counts as joined and teardown moves on. Returns whether the
    /// handle of `id` had been handed out.
    pub fn joined(&mut self, id: u32, clean: bool) -> (accepted: bool)
        ensures
            final(self)@ == old(self)@.joined(id, clean),
            accepted == old(self)@.joining(id),
    {
        let i = id as usize;
        if i >= self.workers.len() {
            return false;
        }
        if self.workers[i].has_thread() {
            return false;
        }
        let phase = if clean {
            Phase::Exited
        } else {
            Phase::Failed
        };
        let ghost was_running = old(self)@.running(id);
        self.workers[i].set_phase(phase);
        proof {
            if was_running {
                let k = self.current@[i as int];
                let progress = if clean {
                    Progress::Finished
                } else {
                    Progress::Aborted
                };
                self.runs@ = self.runs@.update(k, Run { progress, ..self.runs@[k] });
            }
            assert(final(self)@.workers =~= old(self)@.joined(id, clean).workers);
        }
        true
    }

    fn first_unjoined(&self) -> (k: usize)
        ensures
            k == self@.next_to_join(),
    {
        let mut i: usize = 0;
        while i < self.workers.len()
            invariant
                i <= self.workers@.len(),
                self@.scan(0) == self@.scan(i as int),
            decreases self.workers@.len() - i,
        {
            if !self.workers[i].is_joined() {
                return i;
            }
            i = i + 1;
        }
        i
    }
}

} // verus!
