//! The decisions of one worker thread.
//!
//! A worker alternates between two kinds of outside work: blocking on the
//! shared receiving end of the job channel, and running a job inside a panic
//! boundary. [`Worker`] holds no thread and no job; it records where the
//! worker stands and, for everything the thread observes, says what to do
//! next. The receive lock is taken and released inside the
//! [`WorkerAction::Receive`] action, so a worker that was told to run a job
//! never holds it.

use vstd::prelude::*;

verus! {

/// The two states of a worker's life.
#[derive(Clone, Copy, PartialEq, Eq, Structural, Debug)]
pub enum WorkerState {
    /// The worker serves jobs: it is waiting for one or running one.
    Running,
    /// The worker has left its loop for good.
    ShuttingDown,
}

/// What a worker thread asks of the outside world next.
#[derive(Clone, Copy, PartialEq, Eq, Structural, Debug)]
pub enum WorkerAction {
    /// Lock the shared receiving end, block until a job or a disconnection
    /// arrives, and release the lock.
    Receive,
    /// Run the job that was just received, isolating any panic.
    RunJob,
    /// End the thread.
    Stop,
}

/// What a worker thread observed while carrying out an action.
#[derive(Clone, Copy, PartialEq, Eq, Structural, Debug)]
pub enum WorkerEvent {
    /// The receive lock could not be taken because it is poisoned.
    LockPoisoned,
    /// A job was taken out of the channel.
    JobReceived,
    /// The channel is drained and its producing end is gone.
    Disconnected,
    /// The job returned.
    JobCompleted,
    /// The job panicked and the panic was caught.
    JobPanicked,
}

/// Whether `event` can be the outcome of the action `pending`.
pub open spec fn answers(pending: WorkerAction, event: WorkerEvent) -> bool {
    match pending {
        WorkerAction::Receive => event is LockPoisoned || event is JobReceived
            || event is Disconnected,
        WorkerAction::RunJob => event is JobCompleted || event is JobPanicked,
        WorkerAction::Stop => false,
    }
}

/// The action that follows `pending` once `event` was observed.
///
/// A received job is run; a finished job, however it ended, sends the worker
/// back to the channel; a disconnection or a poisoned lock ends the worker.
/// An event that does not answer the pending action changes nothing.
pub open spec fn worker_step(pending: WorkerAction, event: WorkerEvent) -> WorkerAction {
    if !answers(pending, event) {
        pending
    } else {
        match event {
            WorkerEvent::JobReceived => WorkerAction::RunJob,
            WorkerEvent::JobCompleted | WorkerEvent::JobPanicked => WorkerAction::Receive,
            WorkerEvent::Disconnected | WorkerEvent::LockPoisoned => WorkerAction::Stop,
        }
    }
}

/// The state a worker is in while `pending` is its next action.
pub open spec fn state_of(pending: WorkerAction) -> WorkerState {
    if pending is Stop {
        WorkerState::ShuttingDown
    } else {
        WorkerState::Running
    }
}

/// A worker as the contracts see it.
pub struct WorkerView {
    /// The index the worker was created with.
    pub id: nat,
    /// The action the worker performs next.
    pub pending: WorkerAction,
}

/// The state machine that a worker thread consults.
pub struct Worker {
    id: usize,
    pending: WorkerAction,
}

impl View for Worker {
    type V = WorkerView;

    closed spec fn view(&self) -> WorkerView {
        WorkerView { id: self.id as nat, pending: self.pending }
    }
}

impl Worker {
    /// A worker with the index `id`, about to wait for its first job.
    pub fn new(id: usize) -> (worker: Worker)
        ensures
            worker@ == (WorkerView { id: id as nat, pending: WorkerAction::Receive }),
    {
        Worker { id, pending: WorkerAction::Receive }
    }

    /// The index given at construction; it never changes.
    pub fn id(&self) -> (id: usize)
        ensures
            id == self@.id,
    {
        self.id
    }

    /// The state the worker is in.
    pub fn state(&self) -> (state: WorkerState)
        ensures
            state == state_of(self@.pending),
    {
        match self.pending {
            WorkerAction::Stop => WorkerState::ShuttingDown,
            _ => WorkerState::Running,
        }
    }

    /// The action the thread has to perform now.
    pub fn next_action(&self) -> (action: WorkerAction)
        ensures
            action == self@.pending,
    {
        self.pending
    }

    /// Takes note of `event` and returns the action to perform next.
    pub fn handle(&mut self, event: WorkerEvent) -> (action: WorkerAction)
        ensures
            final(self)@.id == old(self)@.id,
            final(self)@.pending == worker_step(old(self)@.pending, event),
            action == final(self)@.pending,
    {
        let next = match (self.pending, event) {
            (WorkerAction::Receive, WorkerEvent::JobReceived) => WorkerAction::RunJob,
            (WorkerAction::Receive, WorkerEvent::Disconnected) => WorkerAction::Stop,
            (WorkerAction::Receive, WorkerEvent::LockPoisoned) => WorkerAction::Stop,
            (WorkerAction::RunJob, WorkerEvent::JobCompleted) => WorkerAction::Receive,
            (WorkerAction::RunJob, WorkerEvent::JobPanicked) => WorkerAction::Receive,
            (pending, _) => pending,
        };
        self.pending = next;
        next
    }
}

/// A job cannot stop a worker. Whether a job arrives, returns or panics, the
/// worker is afterwards in the state it was in; and a panic leaves it
/// exactly where a return would.
pub proof fn no_job_stops_a_worker(pending: WorkerAction, event: WorkerEvent)
    requires
        event is JobReceived || event is JobCompleted || event is JobPanicked,
    ensures
        state_of(worker_step(pending, event)) == state_of(pending),
        worker_step(pending, WorkerEvent::JobPanicked) == worker_step(
            pending,
            WorkerEvent::JobCompleted,
        ),
        pending is RunJob ==> worker_step(pending, WorkerEvent::JobPanicked) is Receive,
{
}

/// A worker stops only while it waits for a job, and only because the
/// channel is disconnected or the lock is poisoned. Once it has stopped,
/// nothing brings it back.
pub proof fn a_worker_stops_for_good_and_for_a_reason(pending: WorkerAction, event: WorkerEvent)
    ensures
        pending is Stop ==> worker_step(pending, event) is Stop,
        !(pending is Stop) && worker_step(pending, event) is Stop ==> pending is Receive && (event
            is Disconnected || event is LockPoisoned),
{
}

} // verus!
