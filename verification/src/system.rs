//! The pool, its workers and the job channel as one transition system.
//!
//! A [`System`] puts together what [`crate::pool::ThreadPool`] and
//! [`crate::worker::Worker`] decide with a model of what lies between them:
//! the channel as a first-in, first-out queue, and the lock around its
//! receiving end. Jobs are told apart by tickets, numbered in the order in
//! which they were accepted. A [`Step`] is one thing that one thread does;
//! an interleaving of the threads is a sequence of steps.
//!
//! Three things are taken for granted here and proved nowhere: that the
//! channel delivers in the order of sending and reports a disconnection only
//! when it is drained and the pool has let go of its producing end; that
//! sending fails once no worker is left to receive; and that every job
//! returns or panics in the end.

use crate::pool::PoolView;
use crate::worker::{worker_step, WorkerAction, WorkerEvent};
use vstd::prelude::*;

verus! {

/// One thing that one thread does.
pub enum Step {
    /// The producer thread `producer` submits a job.
    Submit { producer: nat },
    /// The teardown begins: the pool lets go of the producing end.
    Close,
    /// The worker takes the receive lock.
    Acquire { worker: nat },
    /// The worker, holding the lock, takes the oldest job out of the channel
    /// and releases the lock.
    Receive { worker: nat },
    /// The worker, holding the lock, learns that the channel is disconnected
    /// and releases the lock.
    Disconnect { worker: nat },
    /// The worker finds the receive lock poisoned.
    Poison { worker: nat },
    /// The job that the worker runs comes to its end, by returning or by a
    /// panic that the worker catches.
    Finish { worker: nat, panicked: bool },
    /// The teardown names the next worker to wait for, and the wait returns.
    /// The two are one step, because no other thread can tell them apart.
    Join,
}

/// The state of a pool, its channel and its workers.
pub struct System {
    /// The pool itself.
    pub pool: PoolView,
    /// For each worker, the action it performs next.
    pub workers: Seq<WorkerAction>,
    /// For each worker, the ticket of the job it received last; this is the
    /// job it runs while its next action is to run a job.
    pub holding: Seq<nat>,
    /// The worker that holds the receive lock, if any does.
    pub lock: Option<nat>,
    /// The tickets of the jobs in the channel, oldest first.
    pub queue: Seq<nat>,
    /// For each accepted job, by ticket, the producer that submitted it.
    pub origins: Seq<nat>,
    /// The tickets of the jobs that a worker began to run, in that order.
    pub started: Seq<nat>,
    /// The tickets of the jobs whose run has ended, in that order.
    pub finished: Seq<nat>,
    /// How often a worker found the receive lock poisoned.
    pub faults: nat,
}

/// How many of `workers` have `action` as their next action.
pub open spec fn count(workers: Seq<WorkerAction>, action: WorkerAction) -> nat
    decreases workers.len(),
{
    if workers.len() == 0 {
        0
    } else {
        count(workers.drop_last(), action) + if workers.last() == action {
            1nat
        } else {
            0nat
        }
    }
}

/// How many of `steps` are submissions made before the teardown begins.
pub open spec fn submissions_before_close(steps: Seq<Step>) -> nat
    decreases steps.len(),
{
    if steps.len() == 0 {
        0
    } else {
        submissions_before_close(steps.drop_last()) + if steps.last() is Submit
            && !steps.drop_last().contains(Step::Close) {
            1nat
        } else {
            0nat
        }
    }
}

impl System {
    /// A pool of `size` workers right after construction: nothing was
    /// submitted, and every worker is about to wait for its first job.
    pub open spec fn init(size: nat) -> System {
        System {
            pool: PoolView::fresh(size),
            workers: Seq::new(size, |i: int| WorkerAction::Receive),
            holding: Seq::new(size, |i: int| 0nat),
            lock: None,
            queue: Seq::empty(),
            origins: Seq::empty(),
            started: Seq::empty(),
            finished: Seq::empty(),
            faults: 0,
        }
    }

    /// The number of jobs accepted so far; they carry the tickets below it.
    pub open spec fn accepted(self) -> nat {
        self.origins.len()
    }

    /// Whether worker `i` is running the job with ticket `t`.
    pub open spec fn runs(self, i: int, t: nat) -> bool {
        &&& 0 <= i < self.workers.len()
        &&& self.workers[i] is RunJob
        &&& self.holding[i] == t
    }

    /// Whether some worker is running the job with ticket `t`.
    pub open spec fn in_flight(self, t: nat) -> bool {
        exists|i: int| self.runs(i, t)
    }

    /// Whether a worker is left that has not stopped; the receiving end of
    /// the channel lives as long as one is.
    pub open spec fn connected(self) -> bool {
        exists|i: int| 0 <= i < self.workers.len() && !(#[trigger] self.workers[i] is Stop)
    }

    /// Whether a job submitted now is accepted.
    pub open spec fn accepts(self) -> bool {
        self.pool.accepting && self.connected()
    }

    /// Whether worker `i` waits for a job without holding the lock.
    pub open spec fn waits(self, i: nat) -> bool {
        &&& i < self.workers.len()
        &&& self.workers[i as int] is Receive
        &&& self.lock != Some(i)
    }

    /// Whether `step` can happen in this state.
    pub open spec fn enabled(self, step: Step) -> bool {
        match step {
            Step::Submit { producer } => true,
            Step::Close => self.pool.accepting,
            Step::Acquire { worker } => self.waits(worker) && self.lock is None,
            Step::Receive { worker } => self.lock == Some(worker) && self.queue.len() > 0,
            Step::Disconnect { worker } => self.lock == Some(worker) && self.queue.len() == 0
                && !self.pool.accepting,
            Step::Poison { worker } => self.waits(worker),
            Step::Finish { worker, panicked } => worker < self.workers.len()
                && self.workers[worker as int] is RunJob,
            Step::Join => !self.pool.accepting && self.pool.joined < self.pool.size
                && self.workers[self.pool.joined as int] is Stop,
        }
    }

    /// The state with worker `i` having observed `event`.
    pub open spec fn observe(self, i: nat, event: WorkerEvent) -> System {
        System {
            workers: self.workers.update(i as int, worker_step(self.workers[i as int], event)),
            ..self
        }
    }

    /// The state after `step`.
    pub open spec fn apply(self, step: Step) -> System {
        match step {
            Step::Submit { producer } => if self.accepts() {
                System {
                    queue: self.queue.push(self.accepted()),
                    origins: self.origins.push(producer),
                    ..self
                }
            } else {
                self
            },
            Step::Close => System { pool: self.pool.closed(), ..self },
            Step::Acquire { worker } => System { lock: Some(worker), ..self },
            Step::Receive { worker } => System {
                holding: self.holding.update(worker as int, self.queue.first()),
                lock: None,
                queue: self.queue.drop_first(),
                started: self.started.push(self.queue.first()),
                ..self.observe(worker, WorkerEvent::JobReceived)
            },
            Step::Disconnect { worker } => System {
                lock: None,
                ..self.observe(worker, WorkerEvent::Disconnected)
            },
            Step::Poison { worker } => System {
                faults: self.faults + 1,
                ..self.observe(worker, WorkerEvent::LockPoisoned)
            },
            Step::Finish { worker, panicked } => System {
                finished: self.finished.push(self.holding[worker as int]),
                ..self.observe(
                    worker,
                    if panicked {
                        WorkerEvent::JobPanicked
                    } else {
                        WorkerEvent::JobCompleted
                    },
                )
            },
            Step::Join => System { pool: self.pool.after_join(), ..self },
        }
    }

    /// The state after the steps of `steps`, taken in order.
    pub open spec fn run(self, steps: Seq<Step>) -> System
        decreases steps.len(),
    {
        if steps.len() == 0 {
            self
        } else {
            self.run(steps.drop_last()).apply(steps.last())
        }
    }

    /// Whether `steps` is an interleaving that can happen from this state:
    /// each step is enabled when its turn comes.
    pub open spec fn admits(self, steps: Seq<Step>) -> bool
        decreases steps.len(),
    {
        steps.len() == 0 || (self.admits(steps.drop_last()) && self.run(
            steps.drop_last(),
        ).enabled(steps.last()))
    }

    /// Whether the teardown is over: every worker was waited for.
    pub open spec fn torn_down(self) -> bool {
        self.pool.joined == self.pool.size
    }

    /// The number of jobs that are being run.
    pub open spec fn running(self) -> nat {
        count(self.workers, WorkerAction::RunJob)
    }

    /// An upper bound on the number of steps, other than submissions, that
    /// can still happen.
    pub open spec fn fuel(self) -> nat {
        (3 * self.queue.len() + 3 * count(self.workers, WorkerAction::RunJob) + 2 * count(
            self.workers,
            WorkerAction::Receive,
        ) + if self.lock is None {
            1nat
        } else {
            0nat
        } + if self.pool.accepting {
            1nat
        } else {
            0nat
        } + (self.pool.size - self.pool.joined)) as nat
    }

    /// The parts fit together: there is one entry for each worker, and a
    /// worker that holds the receive lock is waiting for a job.
    pub open spec fn shaped(self) -> bool {
        &&& self.pool.wf()
        &&& self.workers.len() == self.pool.size
        &&& self.holding.len() == self.pool.size
        &&& self.lock matches Some(i) ==> i < self.pool.size && self.workers[i as int] is Receive
    }

    /// Jobs are started in the order in which they were accepted: the jobs
    /// started so far are those with the first tickets, in order, and the
    /// channel holds the tickets that follow, in order.
    pub open spec fn ordered(self) -> bool {
        &&& self.started.len() + self.queue.len() == self.origins.len()
        &&& forall|k: int| 0 <= k < self.started.len() ==> #[trigger] self.started[k] == k
        &&& forall|k: int|
            0 <= k < self.queue.len() ==> #[trigger] self.queue[k] == self.started.len() + k
    }

    /// Every job that was started is accounted for: either its run has
    /// ended, once, or exactly one worker is running it.
    pub open spec fn accounted(self) -> bool {
        &&& self.finished.no_duplicates()
        &&& forall|k: int|
            0 <= k < self.finished.len() ==> #[trigger] self.finished[k] < self.started.len()
        &&& forall|i: int|
            0 <= i < self.workers.len() && #[trigger] self.workers[i] is RunJob ==> self.holding[i]
                < self.started.len() && !self.finished.contains(self.holding[i])
        &&& forall|i: int, j: int|
            0 <= i < self.workers.len() && 0 <= j < self.workers.len() && i != j
                && #[trigger] self.workers[i] is RunJob && #[trigger] self.workers[j] is RunJob
                ==> self.holding[i] != self.holding[j]
        &&& forall|t: nat|
            t < self.started.len() ==> #[trigger] self.finished.contains(t) || self.in_flight(t)
        &&& self.finished.len() + self.running() == self.started.len()
    }

    /// Workers stop for a reason. A worker that the teardown has waited for
    /// has stopped; and unless a lock was found poisoned, a worker has
    /// stopped only if the pool is closed and the channel is drained.
    pub open spec fn settled(self) -> bool {
        &&& forall|i: int| 0 <= i < self.pool.joined ==> #[trigger] self.workers[i] is Stop
        &&& self.faults == 0 ==> forall|i: int|
            0 <= i < self.workers.len() && #[trigger] self.workers[i] is Stop
                ==> !self.pool.accepting && self.queue.len() == 0
    }

    /// What holds in every state that a pool can reach.
    pub open spec fn inv(self) -> bool {
        &&& self.shaped()
        &&& self.ordered()
        &&& self.accounted()
        &&& self.settled()
    }
}

} // verus!
