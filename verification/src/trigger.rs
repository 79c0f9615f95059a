//! The manual trigger: a queue of signals with room for one.
//!
//! A subscriber may ask for a pass at once. Asking never blocks. While one
//! request waits to be taken up the queue is full, and a further request is
//! dropped without complaint, so that asking many times buys one pass. The
//! queue itself is a bounded channel of `tokio`; this module fixes its
//! capacity and decides what a refused signal means.

use vstd::prelude::*;
use vstd::string::StringExecFns;

verus! {

/// The sending half of a bounded `tokio` channel. Nothing inside it is
/// visible to the proofs.
#[verifier::external_type_specification]
#[verifier::external_body]
#[verifier::reject_recursive_types(T)]
pub struct ExSender<T>(tokio::sync::mpsc::Sender<T>);

/// The receiving half of a bounded `tokio` channel. Nothing inside it is
/// visible to the proofs.
#[verifier::external_type_specification]
#[verifier::external_body]
#[verifier::reject_recursive_types(T)]
pub struct ExReceiver<T>(tokio::sync::mpsc::Receiver<T>);

/// How many requests can wait to be taken up.
pub const TRIGGER_CAPACITY: usize = 1;

/// What became of a signal that was offered to the queue.
#[derive(Clone, Copy, Debug, PartialEq, Eq, Structural)]
pub enum Offer {
    /// It went in.
    Taken,
    /// The queue was full: a request waits already.
    Full,
    /// Nobody listens any more.
    Closed,
}

/// Why a pass could not be asked for.
#[derive(Clone, Copy, Debug, PartialEq, Eq, Structural)]
pub enum TriggerError {
    /// The scheduler is gone.
    Closed,
}

/// What the subscriber is told who asked for a pass.
pub open spec fn spec_force_update_reply() -> Seq<char> {
    "Initiate force update...\n (Do not abuse and spam this command!)"@
}

/// What an offered signal means for the subscriber who asked: a request
/// that went in and one that met a full queue are answered alike, for the
/// pass will come either way; only a queue that nobody listens to is an
/// error.
pub open spec fn spec_after_offer(outcome: Offer) -> Result<Seq<char>, TriggerError> {
    match outcome {
        Offer::Taken => Ok(spec_force_update_reply()),
        Offer::Full => Ok(spec_force_update_reply()),
        Offer::Closed => Err(TriggerError::Closed),
    }
}

/// The outcome of a request over sequences.
pub open spec fn request_view(r: Result<String, TriggerError>) -> Result<Seq<char>, TriggerError> {
    match r {
        Ok(reply) => Ok(reply@),
        Err(error) => Err(error),
    }
}

/// How many signals the channel of `sender` has room for: the bound that
/// the channel was made with and that `Sender::max_capacity` reports. It
/// never changes while the channel lives.
pub uninterp spec fn bound_of(sender: tokio::sync::mpsc::Sender<()>) -> usize;

/// Calls `tokio::sync::mpsc::channel::<()>`, which panics on a capacity of
/// zero or above `usize::MAX >> 3`. The channel is made with the capacity
/// it is asked for; nothing else is promised of the two halves.
#[verifier::external_body]
fn open_channel(capacity: usize) -> (ends: (
    tokio::sync::mpsc::Sender<()>,
    tokio::sync::mpsc::Receiver<()>,
))
    requires
        0 < capacity <= usize::MAX / 8,
    ensures
        bound_of(ends.0) == capacity,
{
    tokio::sync::mpsc::channel::<()>(capacity)
}

/// Calls `tokio::sync::mpsc::Sender::try_send` with the unit signal and
/// tells its three outcomes apart. Which of them comes depends on what the
/// other tasks have done to the channel, so nothing is promised.
#[verifier::external_body]
fn offer(sender: &tokio::sync::mpsc::Sender<()>) -> (outcome: Offer) {
    match sender.try_send(()) {
        Ok(()) => Offer::Taken,
        Err(tokio::sync::mpsc::error::TrySendError::Full(_)) => Offer::Full,
        Err(tokio::sync::mpsc::error::TrySendError::Closed(_)) => Offer::Closed,
    }
}

/// The queue of the manual trigger, with room for `TRIGGER_CAPACITY`
/// signals: the half that asks and the half that the scheduler waits on.
pub fn trigger_channel() -> (ends: (
    tokio::sync::mpsc::Sender<()>,
    tokio::sync::mpsc::Receiver<()>,
))
    ensures
        bound_of(ends.0) == TRIGGER_CAPACITY,
{
    open_channel(TRIGGER_CAPACITY)
}

/// Reads what became of an offered signal.
pub fn after_offer(outcome: Offer) -> (r: Result<String, TriggerError>)
    ensures
        request_view(r) == spec_after_offer(outcome),
{
    match outcome {
        Offer::Closed => Err(TriggerError::Closed),
        _ => Ok(
            String::from_str("Initiate force update...\n (Do not abuse and spam this command!)"),
        ),
    }
}

/// Asks for a pass at once. Never blocks; fails only where the scheduler is
/// gone.
pub fn force_update(sender: &tokio::sync::mpsc::Sender<()>) -> (r: Result<String, TriggerError>)
    ensures
        exists|outcome: Offer| request_view(r) == #[trigger] spec_after_offer(outcome),
{
    let outcome = offer(sender);
    after_offer(outcome)
}

} // verus!
