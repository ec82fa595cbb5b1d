//! A fixed-size worker pool, split into the decisions it takes and the laws
//! those decisions obey.
//!
//! Threads, blocking receives and panic boundaries cannot be reasoned about
//! directly, so the pool is organised around small state machines:
//!
//! * [`worker::Worker`] decides what a worker thread does after each thing it
//!   observes (a job arrived, the channel disconnected, a job panicked, ...);
//! * [`pool::ThreadPool`] owns the producing end of the job channel, accepts
//!   jobs while it holds that end, and orders the teardown;
//! * [`channel`] declares the parts of the standard library's channel that
//!   the pool uses;
//! * [`system`] composes pool and workers with a model of the channel, and
//!   [`laws`] proves what holds of every interleaving: no job runs twice,
//!   none is lost, at most `size` run at once, and the teardown never stalls;
//! * [`http`] holds the request routing and response framing of the small
//!   file server that feeds the pool.
//!
//! The caller runs the threads: it performs each action a state machine asks
//! for and reports back what happened.

pub mod channel;
pub mod http;
pub mod laws;
pub mod pool;
pub mod system;
pub mod worker;

pub use channel::SharedReceiver;
pub use http::{response, route, Route};
pub use pool::{PoolView, ThreadPool};
pub use worker::{Worker, WorkerAction, WorkerEvent, WorkerState, WorkerView};
