//! Trusted views of std's multi-producer single-consumer channels.
//!
//! The channel is the one resource shared between producer threads and
//! the receiver worker. Its endpoints are opaque here: nothing is
//! promised about delivery, so every caller must state what holds of
//! each possible outcome.

use vstd::prelude::*;

verus! {

#[verifier::external_type_specification]
#[verifier::external_body]
#[verifier::reject_recursive_types(T)]
pub struct ExSender<T>(std::sync::mpsc::Sender<T>);

#[verifier::external_type_specification]
#[verifier::external_body]
#[verifier::reject_recursive_types(T)]
pub struct ExReceiver<T>(std::sync::mpsc::Receiver<T>);

/// Relies on std's `Sender::clone`: another sending handle to the same
/// queue. The endpoints are opaque, so nothing is promised of it.
pub assume_specification<T>[ <std::sync::mpsc::Sender<T> as Clone>::clone ](
    tx: &std::sync::mpsc::Sender<T>,
) -> std::sync::mpsc::Sender<T>;

/// Relies on std's `mpsc::channel`: a fresh connected sender/receiver pair.
#[verifier::external_body]
pub(crate) fn channel_pair<T>() -> (r: (std::sync::mpsc::Sender<T>, std::sync::mpsc::Receiver<T>)) {
    std::sync::mpsc::channel()
}

/// Relies on std's `Sender::send`: returns whether the value was accepted,
/// which fails only once the receiving end has been dropped.
#[verifier::external_body]
pub(crate) fn channel_send<T>(tx: &std::sync::mpsc::Sender<T>, value: T) -> (ok: bool) {
    tx.send(value).is_ok()
}

/// Relies on std's `Receiver::recv`: blocks until a value arrives
/// (`Some`) or every sender has been dropped with nothing pending (`None`).
#[verifier::external_body]
pub(crate) fn channel_recv<T>(rx: &std::sync::mpsc::Receiver<T>) -> (r: Option<T>) {
    rx.recv().ok()
}

/// Relies on std's `Receiver::try_iter`: every value pending right now,
/// in queue order, without blocking.
#[verifier::external_body]
pub(crate) fn channel_drain<T>(rx: &std::sync::mpsc::Receiver<T>) -> (r: Vec<T>) {
    rx.try_iter().collect()
}

} // verus!
