use crate::pool::intake::Delivery;
use vstd::prelude::*;

verus! {

/// Where a worker's thread is in its life.
#[derive(Debug, Clone, Copy, PartialEq, Eq, Structural)]
pub enum Phase {
    /// In its loop and not running a job: blocked on the intake, or about to be.
    Waiting,
    /// Running a job, outside the intake's critical section.
    Running,
    /// Out of its loop for good: it saw the intake closed, or it was joined.
    Exited,
    /// Joined, and found to have terminated abnormally.
    Failed,
}

impl Phase {
    /// The thread has left its loop and will not take another job.
    pub open spec fn terminated(self) -> bool {
        self is Exited || self is Failed
    }
}

/// Why a worker leaves its loop.
#[derive(Debug, Clone, Copy, PartialEq, Eq, Structural)]
pub enum ExitCause {
    /// The intake is permanently closed.
    Disconnected,
    /// Exclusive access to the intake failed: a peer died while holding it.
    Poisoned,
}

/// What one pass of a worker's loop found when it went for the next job.
#[derive(Debug, PartialEq, Eq)]
pub enum Attempt<J> {
    /// Exclusive access was acquired, and the intake answered.
    Acquired(Delivery<J>),
    /// Exclusive access could not be acquired.
    Poisoned,
}

/// What a worker does after one attempt.
#[derive(Debug, PartialEq, Eq)]
pub enum Action<J> {
    /// Release the intake, run this job to completion, and attempt again.
    Run(J),
    /// Stay blocked on the intake until it changes, and attempt again.
    Wait,
    /// Leave the loop and let the thread terminate.
    Exit(ExitCause),
}

impl<J> Attempt<J> {
    /// The action that an attempt calls for.
    pub open spec fn action(self) -> Action<J> {
        match self {
            Attempt::Acquired(Delivery::Job(job)) => Action::Run(job),
            Attempt::Acquired(Delivery::Pending) => Action::Wait,
            Attempt::Acquired(Delivery::Disconnected) => Action::Exit(ExitCause::Disconnected),
            Attempt::Poisoned => Action::Exit(ExitCause::Poisoned),
        }
    }
}

/// The abstract state of a worker.
pub struct WorkerView<H> {
    /// The worker's number within its pool.
    pub id: u32,
    /// Where its thread is in its life.
    pub phase: Phase,
    /// The handle to its thread, until teardown consumes it.
    pub thread: Option<H>,
}

impl<H> WorkerView<H> {
    /// The handle has been consumed and the thread is known to be gone.
    pub open spec fn joined(self) -> bool {
        self.thread is None && self.phase.terminated()
    }

    /// This worker in another phase.
    pub open spec fn with_phase(self, phase: Phase) -> Self {
        WorkerView { phase, ..self }
    }

    /// This worker after its handle was taken.
    pub open spec fn without_thread(self) -> Self {
        WorkerView { thread: None, ..self }
    }
}

/// One background thread of a pool: its number, its phase, and its handle.
pub struct Worker<H> {
    id: u32,
    phase: Phase,
    thread: Option<H>,
}

impl<H> View for Worker<H> {
    type V = WorkerView<H>;

    closed spec fn view(&self) -> WorkerView<H> {
        WorkerView { id: self.id, phase: self.phase, thread: self.thread }
    }
}

impl<H> Worker<H> {
    /// Starts worker `id`: calls `spawn` once, which starts the thread and
    /// returns its handle. The new worker waits for its first job.
    pub fn new<F: FnOnce(u32) -> H>(id: u32, spawn: F) -> (worker: Self)
        requires
            call_requires(spawn, (id,)),
        ensures
            worker@.id == id,
            worker@.phase == Phase::Waiting,
            worker@.thread is Some,
            call_ensures(spawn, (id,), worker@.thread->0),
    {
        let thread = spawn(id);
        Worker { id, phase: Phase::Waiting, thread: Some(thread) }
    }

    /// The worker's number.
    pub fn id(&self) -> (id: u32)
        ensures
            id == self@.id,
    {
        self.id
    }

    /// Where the worker's thread is in its life.
    pub fn phase(&self) -> (phase: Phase)
        ensures
            phase == self@.phase,
    {
        self.phase
    }

    /// Whether the handle has been consumed and the thread is known to be gone.
    pub fn is_joined(&self) -> (joined: bool)
        ensures
            joined == self@.joined(),
    {
        self.thread.is_none() && (self.phase == Phase::Exited || self.phase == Phase::Failed)
    }

    /// Whether the handle is still here.
    pub fn has_thread(&self) -> (present: bool)
        ensures
            present == self@.thread is Some,
    {
        self.thread.is_some()
    }

    pub(crate) fn set_phase(&mut self, phase: Phase)
        ensures
            final(self)@ == old(self)@.with_phase(phase),
    {
        self.phase = phase;
    }

    pub(crate) fn take_thread(&mut self) -> (thread: Option<H>)
        ensures
            thread == old(self)@.thread,
            final(self)@ == old(self)@.without_thread(),
    {
        self.thread.take()
    }
}

/// Decides what a worker does after one attempt to take the next job: it
/// runs a job that it was given, keeps waiting while the intake is open and
/// empty, and leaves its loop when the intake is closed or cannot be accessed.
pub fn next_action<J>(attempt: Attempt<J>) -> (action: Action<J>)
    ensures
        action == attempt.action(),
{
    match attempt {
        Attempt::Acquired(Delivery::Job(job)) => Action::Run(job),
        Attempt::Acquired(Delivery::Pending) => Action::Wait,
        Attempt::Acquired(Delivery::Disconnected) => Action::Exit(ExitCause::Disconnected),
        Attempt::Poisoned => Action::Exit(ExitCause::Poisoned),
    }
}

} // verus!
