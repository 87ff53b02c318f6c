use std::collections::VecDeque;
use vstd::prelude::*;

verus! {

/// Where every job that an intake ever accepted is now.
pub struct IntakeView<J> {
    /// Whether the sending side is still present.
    pub open: bool,
    /// Jobs waiting to be dequeued, oldest first.
    pub pending: Seq<J>,
    /// Jobs handed out to workers, in the order in which they left the queue.
    pub delivered: Seq<J>,
    /// Jobs discarded unexecuted when the sending side was closed.
    pub dropped: Seq<J>,
}

impl<J> IntakeView<J> {
    /// An open intake that has not seen a job yet.
    pub open spec fn fresh() -> Self {
        IntakeView {
            open: true,
            pending: Seq::empty(),
            delivered: Seq::empty(),
            dropped: Seq::empty(),
        }
    }

    /// Every job ever accepted, in submission order.
    pub open spec fn accepted(self) -> Seq<J> {
        self.delivered + self.pending + self.dropped
    }

    /// An open intake has dropped nothing; a closed one holds nothing.
    pub open spec fn wf(self) -> bool {
        if self.open {
            self.dropped.len() == 0
        } else {
            self.pending.len() == 0
        }
    }

    /// The state after an attempt to submit `job`.
    pub open spec fn submit(self, job: J) -> Self {
        if self.open {
            IntakeView { pending: self.pending.push(job), ..self }
        } else {
            self
        }
    }

    /// The state after an attempt to dequeue one job.
    pub open spec fn take(self) -> Self {
        if self.open && self.pending.len() > 0 {
            IntakeView {
                pending: self.pending.skip(1),
                delivered: self.delivered.push(self.pending[0]),
                ..self
            }
        } else {
            self
        }
    }

    /// What an attempt to dequeue one job returns.
    pub open spec fn delivery(self) -> Delivery<J> {
        if !self.open {
            Delivery::Disconnected
        } else if self.pending.len() > 0 {
            Delivery::Job(self.pending[0])
        } else {
            Delivery::Pending
        }
    }

    /// The state after the sending side is closed.
    pub open spec fn close(self) -> Self {
        IntakeView {
            open: false,
            pending: Seq::empty(),
            delivered: self.delivered,
            dropped: self.dropped + self.pending,
        }
    }
}

/// What one attempt to dequeue a job came to.
#[derive(Debug, PartialEq, Eq)]
pub enum Delivery<J> {
    /// The oldest queued job, now owned by the caller.
    Job(J),
    /// Nothing is queued, but the sending side is still present: wait.
    Pending,
    /// The sending side is gone: no job will ever arrive.
    Disconnected,
}

/// A job was submitted after the sending side had been closed.
#[derive(Debug, PartialEq, Eq, Structural, Clone, Copy)]
pub struct SubmitError;

impl SubmitError {
    /// The error in words.
    pub fn message(&self) -> (text: &'static str)
        ensures
            text@ == "Job submitted after the pool began to shut down"@,
    {
        "Job submitted after the pool began to shut down"
    }
}

/// The hand-off queue between submitters and workers.
pub struct Intake<J> {
    queue: VecDeque<J>,
    open: bool,
    delivered: Ghost<Seq<J>>,
    dropped: Ghost<Seq<J>>,
}

impl<J> View for Intake<J> {
    type V = IntakeView<J>;

    closed spec fn view(&self) -> IntakeView<J> {
        IntakeView {
            open: self.open,
            pending: self.queue@,
            delivered: self.delivered@,
            dropped: self.dropped@,
        }
    }
}

impl<J> Intake<J> {
    /// An open, empty intake.
    pub fn new() -> (intake: Self)
        ensures
            intake@ == IntakeView::<J>::fresh(),
    {
        Intake {
            queue: VecDeque::new(),
            open: true,
            delivered: Ghost(Seq::empty()),
            dropped: Ghost(Seq::empty()),
        }
    }

    /// Whether the sending side is still present.
    pub fn is_open(&self) -> (open: bool)
        ensures
            open == self@.open,
    {
        self.open
    }

    /// The number of jobs waiting to be dequeued.
    pub fn len(&self) -> (n: usize)
        ensures
            n == self@.pending.len(),
    {
        self.queue.len()
    }

    /// Appends `job` behind every job already queued, unless the sending side
    /// is closed: the job is discarded in that case and never handed out.
    pub fn submit(&mut self, job: J) -> (r: Result<(), SubmitError>)
        ensures
            final(self)@ == old(self)@.submit(job),
            r is Ok <==> old(self)@.open,
    {
        if self.open {
            self.queue.push_back(job);
            Ok(())
        } else {
            Err(SubmitError)
        }
    }

    /// Dequeues the oldest job, if there is one.
    pub fn take(&mut self) -> (r: Delivery<J>)
        ensures
            r == old(self)@.delivery(),
            final(self)@ == old(self)@.take(),
    {
        if !self.open {
            return Delivery::Disconnected;
        }
        match self.queue.pop_front() {
            Some(job) => {
                proof {
                    self.delivered@ = self.delivered@.push(job);
                }
                Delivery::Job(job)
            },
            None => Delivery::Pending,
        }
    }

    /// Closes the sending side and discards every job still queued.
    /// Returns how many jobs were discarded.
    pub fn close(&mut self) -> (discarded: usize)
        ensures
            final(self)@ == old(self)@.close(),
            discarded == old(self)@.pending.len(),
    {
        let ghost queued = self.queue@;
        let discarded: usize = self.queue.len();
        self.queue.clear();
        self.open = false;
        proof {
            self.dropped@ = self.dropped@ + queued;
        }
        discarded
    }
}

} // verus!
