//! The job channel: an unbounded multi-producer, single-consumer queue of the
//! standard library, with its receiving end behind a mutex so that the
//! workers can share it.
//!
//! Everything in this file is declared, not proved. Nothing is claimed about
//! what a channel holds, because that changes under the hands of other
//! threads; the one claim made is that a job which could not be sent comes
//! back unchanged.

use std::sync::mpsc::{Receiver, Sender};
use std::sync::{Arc, Mutex};
use vstd::prelude::*;

verus! {

/// `std::sync::mpsc::Sender`, the producing end of a channel; opaque.
#[verifier::external_type_specification]
#[verifier::external_body]
#[verifier::reject_recursive_types(T)]
pub struct ExSender<T>(Sender<T>);

/// `std::sync::mpsc::Receiver`, the consuming end of a channel; opaque.
#[verifier::external_type_specification]
#[verifier::external_body]
#[verifier::reject_recursive_types(T)]
pub struct ExReceiver<T>(Receiver<T>);

/// `std::sync::Mutex`; opaque.
#[verifier::external_type_specification]
#[verifier::external_body]
#[verifier::reject_recursive_types(T)]
pub struct ExMutex<T: ?Sized>(Mutex<T>);

/// The consuming end of the job channel as the workers hold it: one receiver,
/// reachable only through its lock, shared by reference counting.
pub type SharedReceiver<J> = Arc<Mutex<Receiver<J>>>;

/// Calls `std::sync::mpsc::channel`, which creates an unbounded channel and
/// returns its two ends. Nothing is claimed of them.
#[verifier::external_body]
pub(crate) fn open_channel<J>() -> (ends: (Sender<J>, Receiver<J>)) {
    std::sync::mpsc::channel()
}

/// Calls `Sender::send`, which never blocks. It fails only when the receiving
/// end is gone, and the error then carries the value that was to be sent:
/// the contract claims that a job handed back is the job that was given.
/// Whether the send succeeds depends on the other threads and is not stated.
#[verifier::external_body]
pub(crate) fn send<J>(sender: &Sender<J>, job: J) -> (outcome: Result<(), J>)
    ensures
        outcome matches Err(back) ==> back == job,
{
    match sender.send(job) {
        Ok(()) => Ok(()),
        Err(error) => Err(error.0),
    }
}

/// Calls `Mutex::new` on the receiving end, so that it can only be used
/// under the lock. Nothing is claimed of the result.
#[verifier::external_body]
pub(crate) fn lock_up<J>(receiver: Receiver<J>) -> (locked: Mutex<Receiver<J>>) {
    Mutex::new(receiver)
}

} // verus!
