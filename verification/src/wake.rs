//! The one-shot channel by which a task that found nothing to do is woken.

use vstd::prelude::*;

use futures::channel::oneshot;

verus! {

/// The sending half of a one-shot channel of the `futures` crate. Nothing is ever
/// sent: dropping this half completes the receiving half.
#[verifier::external_type_specification]
#[verifier::external_body]
#[verifier::reject_recursive_types(T)]
pub struct ExSender<T>(oneshot::Sender<T>);

/// The receiving half of a one-shot channel of the `futures` crate.
#[verifier::external_type_specification]
#[verifier::external_body]
#[verifier::reject_recursive_types(T)]
pub struct ExReceiver<T>(oneshot::Receiver<T>);

/// What a receiving half of a one-shot channel of the `futures` crate completes
/// with once the sending half is gone.
#[verifier::external_type_specification]
#[verifier::external_body]
pub struct ExCanceled(oneshot::Canceled);

/// `futures::channel::oneshot::channel` makes a fresh channel and returns its two
/// halves. All that is used of them is that they came out of one call. That dropping
/// the sending half completes the receiving half is not said: when a value is dropped
/// is nothing that a contract can speak of.
pub assume_specification<T>[ oneshot::channel::<T> ]() -> (halves: (
    oneshot::Sender<T>,
    oneshot::Receiver<T>,
));

/// Whether the two halves came out of one call that made a channel.
pub open spec fn paired(sender: oneshot::Sender<()>, receiver: oneshot::Receiver<()>) -> bool {
    call_ensures(oneshot::channel::<()>, (), (sender, receiver))
}

} // verus!
