use std::cell::RefCell;
use std::rc::Rc;
use std::sync::mpsc::TryRecvError;
use tinyserver_rs::{SharedReceiver, ThreadPool, Worker, WorkerAction, WorkerEvent, WorkerState};

/// A job of the bench. It answers `false` where a job of a threaded pool
/// would panic.
type Job = Box<dyn FnOnce() -> bool>;

/// A pool whose workers take their turns on one thread, in an order that the
/// test chooses.
struct Bench {
    pool: ThreadPool<Job>,
    workers: Vec<Worker>,
    receivers: Vec<Option<SharedReceiver<Job>>>,
    jobs: Vec<Option<Job>>,
}

impl Bench {
    fn new(size: usize) -> Bench {
        let (pool, shared) = ThreadPool::new(size);
        let workers = (0..size).map(Worker::new).collect();
        let receivers = (0..size).map(|_| Some(shared.clone())).collect();
        let jobs = (0..size).map(|_| None).collect();
        Bench { pool, workers, receivers, jobs }
    }

    fn submit(&self, job: Job) -> bool {
        self.pool.execute(job).is_ok()
    }

    /// Lets worker `i` perform its next action. The answer is `false` where
    /// the worker could do nothing: it is blocked on an empty channel, or it
    /// has stopped.
    fn turn(&mut self, i: usize) -> bool {
        match self.workers[i].next_action() {
            WorkerAction::Receive => {
                let received = {
                    let shared = self.receivers[i].as_ref().unwrap();
                    let guard = shared.lock().unwrap();
                    guard.try_recv()
                };
                match received {
                    Ok(job) => {
                        self.jobs[i] = Some(job);
                        self.workers[i].handle(WorkerEvent::JobReceived);
                        true
                    }
                    Err(TryRecvError::Empty) => false,
                    Err(TryRecvError::Disconnected) => {
                        self.workers[i].handle(WorkerEvent::Disconnected);
                        self.receivers[i] = None;
                        true
                    }
                }
            }
            WorkerAction::RunJob => {
                let job = self.jobs[i].take().unwrap();
                let event = if job() { WorkerEvent::JobCompleted } else { WorkerEvent::JobPanicked };
                self.workers[i].handle(event);
                true
            }
            WorkerAction::Stop => false,
        }
    }

    fn running(&self) -> usize {
        self.workers.iter().filter(|w| w.next_action() == WorkerAction::RunJob).count()
    }

    /// One round: every waiting worker goes to the channel, then every
    /// worker that got a job runs it. The answer is the number of jobs run.
    fn round(&mut self) -> usize {
        for i in 0..self.workers.len() {
            if self.workers[i].next_action() == WorkerAction::Receive {
                self.turn(i);
            }
        }
        let running = self.running();
        assert!(running <= self.pool.size());
        for i in 0..self.workers.len() {
            if self.workers[i].next_action() == WorkerAction::RunJob {
                self.turn(i);
            }
        }
        running
    }

    /// Tears the pool down as its owner would: waits for the workers in the
    /// order in which the pool names them, while all workers go on taking
    /// turns. The answer is the order of the joins.
    fn teardown(&mut self) -> Vec<usize> {
        let mut order = Vec::new();
        while let Some(id) = self.pool.next_join() {
            while self.workers[id].state() == WorkerState::Running {
                let mut moved = false;
                for i in 0..self.workers.len() {
                    moved = self.turn(i) || moved;
                }
                assert!(moved);
            }
            order.push(id);
        }
        order
    }
}

fn counting_job(counter: &Rc<RefCell<Vec<u32>>>, ticket: usize) -> Job {
    let counter = Rc::clone(counter);
    Box::new(move || {
        counter.borrow_mut()[ticket] += 1;
        true
    })
}

#[test]
fn five_jobs_on_two_workers_take_three_rounds() {
    let mut bench = Bench::new(2);
    let starts = Rc::new(RefCell::new(Vec::new()));
    for ticket in 0..5 {
        let starts = Rc::clone(&starts);
        assert!(bench.submit(Box::new(move || {
            starts.borrow_mut().push(ticket);
            true
        })));
    }
    let mut rounds = 0;
    let mut per_round = Vec::new();
    while starts.borrow().len() < 5 {
        per_round.push(bench.round());
        rounds += 1;
    }
    assert_eq!(rounds, 3);
    assert_eq!(per_round, vec![2, 2, 1]);
    assert_eq!(*starts.borrow(), vec![0, 1, 2, 3, 4]);
}

#[test]
fn pool_runs_a_job_after_one_that_panicked() {
    let mut bench = Bench::new(1);
    let counter = Rc::new(RefCell::new(0));
    assert!(bench.submit(Box::new(|| false)));
    assert!(bench.turn(0));
    assert!(bench.turn(0));
    assert_eq!(bench.workers[0].state(), WorkerState::Running);
    assert_eq!(bench.workers[0].next_action(), WorkerAction::Receive);

    let seen = Rc::clone(&counter);
    assert!(bench.submit(Box::new(move || {
        *seen.borrow_mut() += 1;
        true
    })));
    assert!(bench.turn(0));
    assert!(bench.turn(0));
    assert_eq!(*counter.borrow(), 1);
    assert_eq!(bench.workers[0].state(), WorkerState::Running);
}

#[test]
fn every_job_runs_exactly_once_whatever_the_sizes() {
    for size in 1..=4 {
        for jobs in 0..=9 {
            let mut bench = Bench::new(size);
            let counter = Rc::new(RefCell::new(vec![0; jobs]));
            for ticket in 0..jobs {
                assert!(bench.submit(counting_job(&counter, ticket)));
            }
            let order = bench.teardown();
            assert_eq!(order, (0..size).collect::<Vec<_>>());
            assert_eq!(*counter.borrow(), vec![1; jobs]);
            assert!(bench.workers.iter().all(|w| w.state() == WorkerState::ShuttingDown));
        }
    }
}

#[test]
fn every_job_runs_exactly_once_whoever_takes_the_turns() {
    let jobs = 7;
    for favourite in 0..3 {
        let mut bench = Bench::new(3);
        let counter = Rc::new(RefCell::new(vec![0; jobs]));
        for ticket in 0..jobs {
            assert!(bench.submit(counting_job(&counter, ticket)));
        }
        while bench.turn(favourite) {}
        assert_eq!(*counter.borrow(), vec![1; jobs]);
        assert!(!bench.turn((favourite + 1) % 3));
        bench.teardown();
        assert_eq!(*counter.borrow(), vec![1; jobs]);
    }
}

#[test]
fn every_job_runs_exactly_once_when_workers_take_turns_backwards() {
    let jobs = 10;
    let mut bench = Bench::new(4);
    let counter = Rc::new(RefCell::new(vec![0; jobs]));
    for ticket in 0..jobs {
        assert!(bench.submit(counting_job(&counter, ticket)));
    }
    let mut moved = true;
    while moved {
        moved = false;
        for i in (0..4).rev() {
            moved = bench.turn(i) || moved;
            assert!(bench.running() <= 4);
        }
    }
    assert_eq!(*counter.borrow(), vec![1; jobs]);
}

#[test]
fn jobs_of_interleaved_producers_all_run() {
    let mut bench = Bench::new(2);
    let log = Rc::new(RefCell::new(Vec::new()));
    let mut expected = Vec::new();
    for wave in 0..6 {
        for producer in ["left", "right", "middle"] {
            let log = Rc::clone(&log);
            let name = format!("{}-{}", producer, wave);
            expected.push(name.clone());
            assert!(bench.submit(Box::new(move || {
                log.borrow_mut().push(name);
                true
            })));
            bench.turn(wave % 2);
        }
    }
    bench.teardown();
    let mut seen = log.borrow().clone();
    assert_eq!(seen.len(), 18);
    seen.sort();
    expected.sort();
    assert_eq!(seen, expected);
}

#[test]
fn teardown_runs_what_was_queued_and_takes_nothing_new() {
    let mut bench = Bench::new(2);
    let counter = Rc::new(RefCell::new(vec![0; 4]));
    for ticket in 0..3 {
        assert!(bench.submit(counting_job(&counter, ticket)));
    }
    assert_eq!(bench.pool.next_join(), Some(0));
    assert!(!bench.submit(counting_job(&counter, 3)));
    while bench.workers[0].state() == WorkerState::Running {
        assert!(bench.turn(0));
    }
    assert_eq!(*counter.borrow(), vec![1, 1, 1, 0]);
    assert_eq!(bench.teardown(), vec![1]);
    assert_eq!(*counter.borrow(), vec![1, 1, 1, 0]);
    assert!(!bench.submit(counting_job(&counter, 3)));
}

#[test]
fn never_more_jobs_run_than_the_pool_has_workers() {
    let mut bench = Bench::new(3);
    let counter = Rc::new(RefCell::new(vec![0; 10]));
    for ticket in 0..10 {
        assert!(bench.submit(counting_job(&counter, ticket)));
    }
    let mut most = 0;
    let mut rounds = 0;
    while counter.borrow().iter().any(|&c| c == 0) {
        most = most.max(bench.round());
        rounds += 1;
    }
    assert_eq!(most, 3);
    assert_eq!(rounds, 4);
    assert_eq!(bench.pool.size(), 3);
}

#[test]
fn worker_that_finds_the_lock_poisoned_stops_alone() {
    let mut bench = Bench::new(2);
    let counter = Rc::new(RefCell::new(vec![0; 3]));
    for ticket in 0..3 {
        assert!(bench.submit(counting_job(&counter, ticket)));
    }
    assert_eq!(bench.workers[0].handle(WorkerEvent::LockPoisoned), WorkerAction::Stop);
    bench.receivers[0] = None;
    assert!(!bench.turn(0));
    while bench.turn(1) {}
    assert_eq!(*counter.borrow(), vec![1, 1, 1]);
    assert_eq!(bench.workers[1].state(), WorkerState::Running);
    assert_eq!(bench.teardown(), vec![0, 1]);
}

#[test]
fn idle_workers_block_until_the_pool_closes() {
    let mut bench = Bench::new(2);
    assert!(!bench.turn(0));
    assert!(!bench.turn(1));
    assert_eq!(bench.workers[0].state(), WorkerState::Running);
    bench.pool.close();
    assert!(bench.turn(0));
    assert_eq!(bench.workers[0].state(), WorkerState::ShuttingDown);
    assert_eq!(bench.workers[1].state(), WorkerState::Running);
    assert!(bench.turn(1));
    assert_eq!(bench.workers[1].state(), WorkerState::ShuttingDown);
}
