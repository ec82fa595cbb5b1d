//! What holds of every interleaving of a pool's threads.
//!
//! The public proof functions of this file are the laws of the pool. Each is
//! stated over [`System`]: for any number of workers and any sequence of
//! steps that can happen.

use crate::system::{count, submissions_before_close, Step, System};
use crate::worker::WorkerAction;
use vstd::prelude::*;

verus! {

proof fn lemma_count_bound(workers: Seq<WorkerAction>, action: WorkerAction)
    ensures
        count(workers, action) <= workers.len(),
    decreases workers.len(),
{
    if workers.len() > 0 {
        lemma_count_bound(workers.drop_last(), action);
    }
}

proof fn lemma_count_update(
    workers: Seq<WorkerAction>,
    i: int,
    next: WorkerAction,
    action: WorkerAction,
)
    requires
        0 <= i < workers.len(),
    ensures
        count(workers.update(i, next), action) + (if workers[i] == action {
            1nat
        } else {
            0nat
        }) == count(workers, action) + (if next == action {
            1nat
        } else {
            0nat
        }),
    decreases workers.len(),
{
    let updated = workers.update(i, next);
    if i == workers.len() - 1 {
        assert(updated.drop_last() =~= workers.drop_last());
    } else {
        assert(updated.drop_last() =~= workers.drop_last().update(i, next));
        lemma_count_update(workers.drop_last(), i, next, action);
    }
}

proof fn lemma_count_none(workers: Seq<WorkerAction>, action: WorkerAction)
    ensures
        count(workers, action) == 0 <==> forall|i: int|
            0 <= i < workers.len() ==> #[trigger] workers[i] != action,
    decreases workers.len(),
{
    if workers.len() > 0 {
        let front = workers.drop_last();
        lemma_count_none(front, action);
        if count(workers, action) == 0 {
            assert forall|i: int| 0 <= i < workers.len() implies #[trigger] workers[i]
                != action by {
                if i < workers.len() - 1 {
                    assert(front[i] == workers[i]);
                }
            }
        }
    }
}

/// A job stays in flight across a step that leaves its worker alone.
proof fn lemma_in_flight_kept(s: System, n: System, w: int)
    requires
        n.workers.len() == s.workers.len(),
        forall|i: int|
            0 <= i < s.workers.len() && i != w ==> n.workers[i] == s.workers[i] && n.holding[i]
                == s.holding[i],
    ensures
        forall|t: nat| #[trigger] s.in_flight(t) && !s.runs(w, t) ==> n.in_flight(t),
{
    assert forall|t: nat| #[trigger] s.in_flight(t) && !s.runs(w, t) implies n.in_flight(t) by {
        let i = choose|i: int| s.runs(i, t);
        assert(n.runs(i, t));
    }
}

/// A sequence without duplicates has none after a value it does not
/// contain is added; it then contains that value and what it held before, and
/// nothing else.
proof fn lemma_push_fresh(log: Seq<nat>, t: nat)
    requires
        log.no_duplicates(),
        !log.contains(t),
    ensures
        log.push(t).no_duplicates(),
        forall|u: nat| #[trigger] log.push(t).contains(u) <==> u == t || log.contains(u),
{
    let pushed = log.push(t);
    assert forall|u: nat| #[trigger] pushed.contains(u) <==> u == t || log.contains(u) by {
        if u == t {
            assert(pushed[log.len() as int] == t);
        } else if log.contains(u) {
            let k = choose|k: int| 0 <= k < log.len() && log[k] == u;
            assert(pushed[k] == u);
        }
    }
}

proof fn lemma_step_keeps_inv(s: System, step: Step)
    requires
        s.inv(),
        s.enabled(step),
    ensures
        s.apply(step).inv(),
{
    let n = s.apply(step);
    match step {
        Step::Receive { worker } => {
            let w = worker as int;
            lemma_in_flight_kept(s, n, w);
            lemma_count_update(s.workers, w, WorkerAction::RunJob, WorkerAction::RunJob);
            assert(n.runs(w, s.queue[0]));
        },
        Step::Disconnect { worker } | Step::Poison { worker } => {
            let w = worker as int;
            lemma_in_flight_kept(s, n, w);
            lemma_count_update(s.workers, w, WorkerAction::Stop, WorkerAction::RunJob);
        },
        Step::Finish { worker, panicked } => {
            let w = worker as int;
            lemma_in_flight_kept(s, n, w);
            lemma_count_update(s.workers, w, WorkerAction::Receive, WorkerAction::RunJob);
            lemma_push_fresh(s.finished, s.holding[w]);
        },
        Step::Submit { .. } | Step::Close | Step::Acquire { .. } | Step::Join => {
            lemma_in_flight_kept(s, n, -1);
        },
    }
}

proof fn lemma_init_inv(size: nat)
    requires
        size > 0,
    ensures
        System::init(size).inv(),
{
    let s = System::init(size);
    lemma_count_none(s.workers, WorkerAction::RunJob);
}

proof fn lemma_run_keeps_inv(s: System, steps: Seq<Step>)
    requires
        s.inv(),
        s.admits(steps),
    ensures
        s.run(steps).inv(),
    decreases steps.len(),
{
    if steps.len() > 0 {
        lemma_run_keeps_inv(s, steps.drop_last());
        lemma_step_keeps_inv(s.run(steps.drop_last()), steps.last());
    }
}

/// Whatever the threads do, and in whatever order, the pool stays
/// consistent: every state that can be reached from a new pool with at least
/// one worker satisfies [`System::inv`].
pub proof fn reachable_states_are_consistent(size: nat, steps: Seq<Step>)
    requires
        size > 0,
        System::init(size).admits(steps),
    ensures
        System::init(size).run(steps).inv(),
{
    lemma_init_inv(size);
    lemma_run_keeps_inv(System::init(size), steps);
}

/// No job runs twice, and none ends twice. Workers begin jobs in the order
/// in which the jobs were accepted: the `k`-th job to be started is the one
/// with ticket `k`, and a job ends only after it was started.
pub proof fn no_job_runs_twice(size: nat, steps: Seq<Step>)
    requires
        size > 0,
        System::init(size).admits(steps),
    ensures
        ({
            let s = System::init(size).run(steps);
            &&& s.started.no_duplicates()
            &&& s.finished.no_duplicates()
            &&& s.started.len() <= s.accepted()
            &&& forall|k: int| 0 <= k < s.started.len() ==> #[trigger] s.started[k] == k
            &&& forall|k: int|
                0 <= k < s.finished.len() ==> s.started.contains(#[trigger] s.finished[k])
        }),
{
    reachable_states_are_consistent(size, steps);
    let s = System::init(size).run(steps);
    assert forall|k: int| 0 <= k < s.finished.len() implies s.started.contains(
        #[trigger] s.finished[k],
    ) by {
        let t = s.finished[k];
        assert(s.started[t as int] == t);
    }
}

/// No accepted job is lost, whichever producer submitted it and however the
/// submissions interleave with everything else: at every moment a job is in
/// exactly one place. It waits in the channel, or exactly one worker runs
/// it, or its run has ended.
pub proof fn no_job_is_lost(size: nat, steps: Seq<Step>, t: nat)
    requires
        size > 0,
        System::init(size).admits(steps),
        t < System::init(size).run(steps).accepted(),
    ensures
        ({
            let s = System::init(size).run(steps);
            &&& s.queue.contains(t) || s.in_flight(t) || s.finished.contains(t)
            &&& !(s.queue.contains(t) && s.in_flight(t))
            &&& !(s.queue.contains(t) && s.finished.contains(t))
            &&& !(s.in_flight(t) && s.finished.contains(t))
            &&& forall|i: int, j: int| s.runs(i, t) && s.runs(j, t) ==> i == j
            &&& s.accepted() == s.queue.len() + s.running() + s.finished.len()
        }),
{
    reachable_states_are_consistent(size, steps);
    let s = System::init(size).run(steps);
    if t >= s.started.len() {
        assert(s.queue[t - s.started.len()] == t);
    }
}

/// While the pool is open and no lock was ever found poisoned, every
/// submission is accepted, from whichever producer it comes: the job enters
/// the channel behind all jobs that wait there, under the next ticket.
pub proof fn an_open_pool_accepts_every_job(size: nat, steps: Seq<Step>, producer: nat)
    requires
        size > 0,
        System::init(size).admits(steps),
        System::init(size).run(steps).pool.accepting,
        System::init(size).run(steps).faults == 0,
    ensures
        ({
            let s = System::init(size).run(steps);
            let n = s.apply(Step::Submit { producer });
            &&& n.accepted() == s.accepted() + 1
            &&& n.queue == s.queue.push(s.accepted())
            &&& n.origins.last() == producer
        }),
{
    reachable_states_are_consistent(size, steps);
}

/// Once the teardown has begun, no job is accepted any more: a submission
/// changes nothing, and the pool never opens again.
pub proof fn a_closed_pool_accepts_nothing(s: System, steps: Seq<Step>)
    requires
        !s.pool.accepting,
    ensures
        !s.run(steps).pool.accepting,
        s.run(steps).origins == s.origins,
        forall|producer: nat| s.apply(Step::Submit { producer }) == s,
    decreases steps.len(),
{
    if steps.len() > 0 {
        a_closed_pool_accepts_nothing(s, steps.drop_last());
    }
}

proof fn lemma_accepted_are_the_submissions(size: nat, steps: Seq<Step>)
    requires
        size > 0,
        System::init(size).admits(steps),
        System::init(size).run(steps).faults == 0,
    ensures
        System::init(size).run(steps).accepted() == submissions_before_close(steps),
        System::init(size).run(steps).pool.accepting <==> !steps.contains(Step::Close),
    decreases steps.len(),
{
    if steps.len() > 0 {
        let front = steps.drop_last();
        let before = System::init(size).run(front);
        reachable_states_are_consistent(size, front);
        lemma_accepted_are_the_submissions(size, front);
        assert(before.pool.accepting ==> !(before.workers[0] is Stop));
        if front.contains(Step::Close) {
            let k = choose|k: int| 0 <= k < front.len() && front[k] == Step::Close;
            assert(steps[k] == Step::Close);
        }
        if steps.contains(Step::Close) && steps.last() != Step::Close {
            let k = choose|k: int| 0 <= k < steps.len() && steps[k] == Step::Close;
            assert(front[k] == Step::Close);
        }
        if steps.last() == Step::Close {
            assert(steps[steps.len() - 1] == Step::Close);
        }
    }
}

/// When the teardown is over and no lock was ever found poisoned, every job
/// that was submitted before the teardown began has been run exactly once,
/// to its end: each was accepted, nothing waits in the channel, nothing is
/// being run, and every ticket occurs once among the started and once among
/// the finished jobs.
pub proof fn teardown_waits_for_every_job(size: nat, steps: Seq<Step>)
    requires
        size > 0,
        System::init(size).admits(steps),
        System::init(size).run(steps).torn_down(),
        System::init(size).run(steps).faults == 0,
    ensures
        ({
            let s = System::init(size).run(steps);
            &&& !s.pool.accepting
            &&& s.accepted() == submissions_before_close(steps)
            &&& s.queue.len() == 0
            &&& s.running() == 0
            &&& s.started.len() == s.accepted()
            &&& s.finished.len() == s.accepted()
            &&& s.started.no_duplicates()
            &&& s.finished.no_duplicates()
            &&& forall|t: nat| t < s.accepted() ==> s.started.contains(t) && s.finished.contains(t)
        }),
{
    reachable_states_are_consistent(size, steps);
    lemma_accepted_are_the_submissions(size, steps);
    let s = System::init(size).run(steps);
    lemma_count_none(s.workers, WorkerAction::RunJob);
    assert forall|t: nat| t < s.accepted() implies s.started.contains(t) && s.finished.contains(
        t,
    ) by {
        assert(s.started[t as int] == t);
    }
}

/// At no moment are more jobs being run than the pool has workers. The jobs
/// being run are those that were started and have not ended, and each has a
/// worker of its own.
pub proof fn at_most_size_jobs_run_at_once(size: nat, steps: Seq<Step>)
    requires
        size > 0,
        System::init(size).admits(steps),
    ensures
        ({
            let s = System::init(size).run(steps);
            &&& s.pool.size == size
            &&& s.workers.len() == size
            &&& s.started.len() - s.finished.len() == s.running()
            &&& s.running() <= size
        }),
{
    reachable_states_are_consistent(size, steps);
    let s = System::init(size).run(steps);
    lemma_count_bound(s.workers, WorkerAction::RunJob);
    lemma_size_is_fixed(System::init(size), steps);
}

proof fn lemma_size_is_fixed(s: System, steps: Seq<Step>)
    ensures
        s.run(steps).pool.size == s.pool.size,
    decreases steps.len(),
{
    if steps.len() > 0 {
        lemma_size_is_fixed(s, steps.drop_last());
    }
}

/// A job that panics costs the pool nothing but that job. The worker that
/// caught the panic stands exactly where it would stand had the job
/// returned: it is still running, waits for the next job, and may take the
/// receive lock as soon as that is free.
pub proof fn a_panic_keeps_the_worker(size: nat, steps: Seq<Step>, worker: nat)
    requires
        size > 0,
        System::init(size).admits(steps),
        System::init(size).run(steps).enabled(Step::Finish { worker, panicked: true }),
    ensures
        ({
            let s = System::init(size).run(steps);
            let n = s.apply(Step::Finish { worker, panicked: true });
            &&& n == s.apply(Step::Finish { worker, panicked: false })
            &&& n.inv()
            &&& n.workers[worker as int] is Receive
            &&& n.finished == s.finished.push(s.holding[worker as int])
            &&& n.queue == s.queue
            &&& n.lock is None ==> n.enabled(Step::Acquire { worker })
        }),
{
    reachable_states_are_consistent(size, steps);
    let s = System::init(size).run(steps);
    lemma_step_keeps_inv(s, Step::Finish { worker, panicked: true });
}

/// A worker never holds the receive lock while it runs a job; so while one
/// worker runs a job, however long, another that waits can take the lock.
pub proof fn no_job_runs_under_the_lock(size: nat, steps: Seq<Step>)
    requires
        size > 0,
        System::init(size).admits(steps),
    ensures
        ({
            let s = System::init(size).run(steps);
            &&& forall|i: nat|
                i < size && #[trigger] s.workers[i as int] is RunJob ==> s.lock != Some(i)
            &&& forall|i: nat|
                s.lock is None && i < size && #[trigger] s.workers[i as int] is Receive
                    ==> s.enabled(Step::Acquire { worker: i })
        }),
{
    reachable_states_are_consistent(size, steps);
    lemma_size_is_fixed(System::init(size), steps);
}

/// Work never stalls. As long as an accepted job has not been run to its
/// end and no lock was found poisoned, some worker can take a step: take
/// the lock, take a job out of the channel, or end the job it runs.
pub proof fn work_never_stalls(size: nat, steps: Seq<Step>) -> (step: Step)
    requires
        size > 0,
        System::init(size).admits(steps),
        System::init(size).run(steps).faults == 0,
        System::init(size).run(steps).finished.len() < System::init(size).run(steps).accepted(),
    ensures
        step is Acquire || step is Receive || step is Finish,
        System::init(size).run(steps).enabled(step),
{
    reachable_states_are_consistent(size, steps);
    let s = System::init(size).run(steps);
    lemma_count_none(s.workers, WorkerAction::RunJob);
    if s.running() > 0 {
        let i = choose|i: int| 0 <= i < s.workers.len() && #[trigger] s.workers[i]
            == WorkerAction::RunJob;
        Step::Finish { worker: i as nat, panicked: false }
    } else {
        match s.lock {
            Some(i) => Step::Receive { worker: i },
            None => Step::Acquire { worker: 0 },
        }
    }
}

/// The teardown never stalls. Until every worker was waited for, some step
/// other than a submission can happen, and none of these steps needs a
/// poisoned lock.
pub proof fn teardown_never_stalls(size: nat, steps: Seq<Step>) -> (step: Step)
    requires
        size > 0,
        System::init(size).admits(steps),
        !System::init(size).run(steps).torn_down(),
    ensures
        !(step is Submit),
        !(step is Poison),
        System::init(size).run(steps).enabled(step),
{
    reachable_states_are_consistent(size, steps);
    let s = System::init(size).run(steps);
    lemma_count_none(s.workers, WorkerAction::RunJob);
    lemma_count_none(s.workers, WorkerAction::Receive);
    if s.pool.accepting {
        Step::Close
    } else if s.running() > 0 {
        let i = choose|i: int| 0 <= i < s.workers.len() && #[trigger] s.workers[i]
            == WorkerAction::RunJob;
        Step::Finish { worker: i as nat, panicked: false }
    } else if s.lock is Some {
        let i = s.lock->0;
        if s.queue.len() > 0 {
            Step::Receive { worker: i }
        } else {
            Step::Disconnect { worker: i }
        }
    } else if count(s.workers, WorkerAction::Receive) > 0 {
        let i = choose|i: int| 0 <= i < s.workers.len() && #[trigger] s.workers[i]
            == WorkerAction::Receive;
        Step::Acquire { worker: i as nat }
    } else {
        Step::Join
    }
}

/// Every step but a submission uses up fuel: it brings the pool closer to
/// the end of its teardown.
pub proof fn every_step_uses_fuel(s: System, step: Step)
    requires
        s.inv(),
        s.enabled(step),
        !(step is Submit),
    ensures
        s.apply(step).fuel() < s.fuel(),
{
    match step {
        Step::Receive { worker } => {
            lemma_count_update(s.workers, worker as int, WorkerAction::RunJob, WorkerAction::RunJob);
            lemma_count_update(s.workers, worker as int, WorkerAction::RunJob, WorkerAction::Receive);
        },
        Step::Disconnect { worker } => {
            lemma_count_update(s.workers, worker as int, WorkerAction::Stop, WorkerAction::RunJob);
            lemma_count_update(s.workers, worker as int, WorkerAction::Stop, WorkerAction::Receive);
        },
        Step::Poison { worker } => {
            lemma_count_update(s.workers, worker as int, WorkerAction::Stop, WorkerAction::RunJob);
            lemma_count_update(s.workers, worker as int, WorkerAction::Stop, WorkerAction::Receive);
        },
        Step::Finish { worker, panicked } => {
            lemma_count_update(s.workers, worker as int, WorkerAction::Receive, WorkerAction::RunJob);
            lemma_count_update(s.workers, worker as int, WorkerAction::Receive, WorkerAction::Receive);
        },
        _ => {},
    }
}

/// Once the producers have stopped submitting, the pool cannot go on for
/// ever: an interleaving without submissions is at most as long as the fuel
/// of the state it starts in. With [`teardown_never_stalls`] this means that
/// the teardown comes to its end.
pub proof fn steps_without_submission_are_bounded(size: nat, steps: Seq<Step>, more: Seq<Step>)
    requires
        size > 0,
        System::init(size).admits(steps),
        System::init(size).run(steps).admits(more),
        forall|k: int| 0 <= k < more.len() ==> !(#[trigger] more[k] is Submit),
    ensures
        more.len() + System::init(size).run(steps).run(more).fuel() <= System::init(size).run(
            steps,
        ).fuel(),
    decreases more.len(),
{
    reachable_states_are_consistent(size, steps);
    let s = System::init(size).run(steps);
    if more.len() > 0 {
        let front = more.drop_last();
        assert forall|k: int| 0 <= k < front.len() implies !(#[trigger] front[k] is Submit) by {
        }
        steps_without_submission_are_bounded(size, steps, front);
        lemma_run_keeps_inv(s, front);
        every_step_uses_fuel(s.run(front), more.last());
    }
}

} // verus!
