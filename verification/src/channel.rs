//! Trusted view of the channel that carries jobs from the pool to its
//! workers.
//!
//! The receiving half is natively safe for many consumers: every worker
//! holds a clone of it, and each message is delivered to exactly one of
//! them, in first-sent order. The channel types are opaque here: nothing
//! about the traffic through the channel is assumed beyond the signatures
//! below. Everything the library proves about a dequeued job comes from the
//! job type's own invariant, not from these declarations.

use vstd::prelude::*;

verus! {

/// The sending half of an unbounded job channel.
#[verifier::external_type_specification]
#[verifier::external_body]
#[verifier::reject_recursive_types(T)]
pub struct ExSender<T>(crossbeam_channel::Sender<T>);

/// The receiving half of an unbounded job channel.
#[verifier::external_type_specification]
#[verifier::external_body]
#[verifier::reject_recursive_types(T)]
pub struct ExReceiver<T>(crossbeam_channel::Receiver<T>);

/// The error `send` returns once every receiving half is gone; it carries
/// the unsent value back to the caller.
#[verifier::external_type_specification]
#[verifier::external_body]
#[verifier::reject_recursive_types(T)]
pub struct ExSendError<T>(crossbeam_channel::SendError<T>);

/// The error `recv` returns once the channel is closed and drained.
#[verifier::external_type_specification]
#[verifier::external_body]
pub struct ExRecvError(crossbeam_channel::RecvError);

/// Relies on crossbeam_channel::unbounded: returns a connected
/// sender/receiver pair for a channel of unlimited capacity, so sending
/// never blocks.
pub assume_specification<T>[ crossbeam_channel::unbounded::<T> ]() -> (
    crossbeam_channel::Sender<T>,
    crossbeam_channel::Receiver<T>,
);

/// Relies on crossbeam_channel::Sender::send: hands the value to the
/// channel, or returns it inside the error once every receiving half is
/// disconnected.
pub assume_specification<T>[ crossbeam_channel::Sender::<T>::send ](
    sender: &crossbeam_channel::Sender<T>,
    msg: T,
) -> Result<(), crossbeam_channel::SendError<T>>;

/// Relies on crossbeam_channel::Receiver::recv: blocks until a message
/// arrives and delivers it to this caller alone, or reports an error once
/// the channel is closed and drained.
pub assume_specification<T>[ crossbeam_channel::Receiver::<T>::recv ](
    receiver: &crossbeam_channel::Receiver<T>,
) -> Result<T, crossbeam_channel::RecvError>;

/// Relies on crossbeam_channel::Receiver::clone: returns another handle on
/// the same queue, for one more consumer.
pub assume_specification<T>[ <crossbeam_channel::Receiver<T> as Clone>::clone ](
    receiver: &crossbeam_channel::Receiver<T>,
) -> crossbeam_channel::Receiver<T>;

} // verus!
