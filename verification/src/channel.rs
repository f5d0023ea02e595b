//! The `flume` channels that the broadcast channel is built on: their types,
//! and the calls made on them.

use flume::Receiver as FlumeRx;
use flume::Sender as FlumeTx;
use vstd::prelude::*;

verus! {

#[verifier::external_type_specification]
#[verifier::external_body]
#[verifier::reject_recursive_types(T)]
pub struct ExFlumeSender<T>(FlumeTx<T>);

#[verifier::external_type_specification]
#[verifier::external_body]
#[verifier::reject_recursive_types(T)]
pub struct ExFlumeReceiver<T>(FlumeRx<T>);

#[verifier::external_type_specification]
#[verifier::external_body]
pub struct ExFlumeRecvError(flume::RecvError);

/// `flume::SendError`: its one field, public in flume, is the message that
/// could not be sent.
#[verifier::external_type_specification]
#[verifier::reject_recursive_types(T)]
pub struct ExFlumeSendError<T>(flume::SendError<T>);

/// `flume::unbounded`: a fresh channel with no capacity limit. Both halves
/// are opaque, so nothing is stated of them.
#[verifier::external_body]
pub(crate) fn channel<U>() -> (FlumeTx<U>, FlumeRx<U>) {
    flume::unbounded()
}

/// `<flume::Sender as Clone>::clone`: another handle on the same channel,
/// hence the same sender.
#[verifier::external_body]
pub(crate) fn sender_clone<U>(tx: &FlumeTx<U>) -> (r: FlumeTx<U>)
    ensures
        r == *tx,
{
    tx.clone()
}

/// `flume::Receiver::is_disconnected`: whether every sender of the channel
/// has been dropped, which depends on other owners; nothing is stated.
#[verifier::external_body]
pub(crate) fn channel_disconnected<U>(rx: &FlumeRx<U>) -> bool {
    rx.is_disconnected()
}

/// `flume::Receiver::drain`: takes every message that sits in the channel at
/// the time of the call; what sits there was sent by other owners, so nothing
/// is stated of the result.
#[verifier::external_body]
pub(crate) fn channel_drain<U>(rx: &FlumeRx<U>) -> Vec<U> {
    rx.drain().collect()
}

/// `flume::Receiver::recv`: waits for the next message, or reports that
/// every sender is gone; both depend on other owners, so nothing is stated.
#[verifier::external_body]
pub(crate) fn channel_recv<U>(rx: &FlumeRx<U>) -> Result<U, flume::RecvError> {
    rx.recv()
}

} // verus!
