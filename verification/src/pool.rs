//! The pool's own state: the producing end of the job channel and the order
//! of the teardown.
//!
//! [`ThreadPool`] accepts jobs for as long as it holds the producing end.
//! Teardown first lets go of that end, which is what makes the workers see a
//! disconnection once the queue is drained, and only then names the workers
//! to wait for, one by one, in the order of their indices. The pool never
//! names a worker to wait for while it still accepts jobs: waiting for a
//! worker that can never see a disconnection would not return.

use crate::channel::{lock_up, open_channel, send, SharedReceiver};
use std::sync::mpsc::Sender;
use std::sync::Arc;
use vstd::prelude::*;

verus! {

/// A pool as the contracts see it.
pub struct PoolView {
    /// The number of workers, fixed at construction.
    pub size: nat,
    /// Whether the pool still holds the producing end of the job channel.
    pub accepting: bool,
    /// How many workers the teardown has already named to be waited for:
    /// those with the indices `0..joined`.
    pub joined: nat,
}

impl PoolView {
    /// What every pool satisfies: it has at least one worker, and it names no
    /// worker to wait for while it accepts jobs.
    pub open spec fn wf(self) -> bool {
        &&& self.size > 0
        &&& self.joined <= self.size
        &&& self.accepting ==> self.joined == 0
    }

    /// A pool of `size` workers right after construction.
    pub open spec fn fresh(size: nat) -> PoolView {
        PoolView { size, accepting: true, joined: 0 }
    }

    /// The pool once it has let go of the producing end.
    pub open spec fn closed(self) -> PoolView {
        PoolView { accepting: false, ..self }
    }

    /// The worker that the teardown waits for next, if any is left.
    pub open spec fn next_to_join(self) -> Option<nat> {
        if self.joined < self.size {
            Some(self.joined)
        } else {
            None
        }
    }

    /// The pool once the next worker, if any is left, has been named.
    pub open spec fn after_join(self) -> PoolView {
        if self.joined < self.size {
            PoolView { joined: self.joined + 1, ..self }
        } else {
            self
        }
    }
}

/// A pool of a fixed number of workers, generic in the type of a job.
#[verifier::reject_recursive_types(J)]
pub struct ThreadPool<J> {
    sender: Option<Sender<J>>,
    size: usize,
    joined: usize,
}

impl<J> View for ThreadPool<J> {
    type V = PoolView;

    closed spec fn view(&self) -> PoolView {
        PoolView {
            size: self.size as nat,
            accepting: self.sender is Some,
            joined: self.joined as nat,
        }
    }
}

impl<J> ThreadPool<J> {
    #[verifier::type_invariant]
    spec fn well_formed(&self) -> bool {
        self@.wf()
    }

    /// Creates the job channel and a pool of `size` workers that holds its
    /// producing end. The receiving end comes back behind a lock, to be
    /// shared by the worker threads with the indices `0..size`.
    pub fn new(size: usize) -> (made: (ThreadPool<J>, SharedReceiver<J>))
        requires
            size > 0,
        ensures
            made.0@ == PoolView::fresh(size as nat),
    {
        let (sender, receiver) = open_channel();
        let shared = Arc::new(lock_up(receiver));
        (ThreadPool { sender: Some(sender), size, joined: 0 }, shared)
    }

    /// The number of workers.
    pub fn size(&self) -> (size: usize)
        ensures
            size == self@.size,
            self@.wf(),
    {
        proof {
            use_type_invariant(self);
        }
        self.size
    }

    /// Whether the pool still accepts jobs.
    pub fn is_accepting(&self) -> (accepting: bool)
        ensures
            accepting == self@.accepting,
    {
        self.sender.is_some()
    }

    /// Submits `job`: sends it on the channel if the pool still holds the
    /// producing end. A job that was not sent is handed back, unchanged;
    /// after teardown has begun that is every job.
    pub fn execute(&self, job: J) -> (outcome: Result<(), J>)
        ensures
            !self@.accepting ==> outcome is Err,
            outcome matches Err(back) ==> back == job,
    {
        match &self.sender {
            Some(sender) => send(sender, job),
            None => Err(job),
        }
    }

    /// Begins the teardown: lets go of the producing end of the channel.
    /// Closing a closed pool changes nothing.
    pub fn close(&mut self)
        ensures
            final(self)@ == old(self)@.closed(),
    {
        proof {
            use_type_invariant(&*self);
        }
        self.sender = None;
    }

    /// Names the next worker to wait for, closing the pool first if it is
    /// still open. Workers are named in the order of their indices, each
    /// once; after the last one the answer is `None`.
    pub fn next_join(&mut self) -> (next: Option<usize>)
        ensures
            final(self)@ == old(self)@.closed().after_join(),
            match next {
                Some(id) => old(self)@.next_to_join() == Some(id as nat),
                None => old(self)@.next_to_join() is None,
            },
    {
        proof {
            use_type_invariant(&*self);
        }
        self.sender = None;
        if self.joined < self.size {
            let id = self.joined;
            self.joined = id + 1;
            Some(id)
        } else {
            None
        }
    }
}

} // verus!
