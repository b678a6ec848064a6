//! The channel types and operations of `crossbeam_channel` that the library
//! uses. Nothing here is proved: each declaration states what the library
//! takes the outside crate to do.

use vstd::prelude::*;

verus! {

/// The sending half of a `crossbeam_channel` channel.
#[verifier::external_type_specification]
#[verifier::external_body]
#[verifier::reject_recursive_types(T)]
pub struct ExSender<T>(crossbeam_channel::Sender<T>);

/// The receiving half of a `crossbeam_channel` channel.
#[verifier::external_type_specification]
#[verifier::external_body]
#[verifier::reject_recursive_types(T)]
pub struct ExReceiver<T>(crossbeam_channel::Receiver<T>);

/// The error of `Sender::send`: the channel is disconnected. It hands the
/// message back.
#[verifier::external_type_specification]
#[verifier::external_body]
#[verifier::reject_recursive_types(T)]
pub struct ExSendError<T>(crossbeam_channel::SendError<T>);

/// The error of `Receiver::recv`: the channel is empty and disconnected.
#[verifier::external_type_specification]
#[verifier::external_body]
pub struct ExRecvError(crossbeam_channel::RecvError);

/// `crossbeam_channel::unbounded` makes a channel of unlimited capacity and
/// returns its two halves. Nothing is claimed of them.
pub assume_specification<T>[ crossbeam_channel::unbounded::<T> ]() -> (halves: (
    crossbeam_channel::Sender<T>,
    crossbeam_channel::Receiver<T>,
));

/// `Sender::send` puts a message on the channel, or hands it back in an
/// error where the channel is disconnected. Which of the two happens depends
/// on the other half, so nothing is claimed of the result.
pub assume_specification<T>[ crossbeam_channel::Sender::<T>::send ](
    sender: &crossbeam_channel::Sender<T>,
    msg: T,
) -> (sent: Result<(), crossbeam_channel::SendError<T>>);

/// `Receiver::recv` waits for the next message of the channel, or fails
/// where the channel is empty and disconnected. Nothing is claimed of the
/// result.
pub assume_specification<T>[ crossbeam_channel::Receiver::<T>::recv ](
    receiver: &crossbeam_channel::Receiver<T>,
) -> (received: Result<T, crossbeam_channel::RecvError>);

} // verus!
