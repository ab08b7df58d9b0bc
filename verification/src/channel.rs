//! The channels between clients, the task that serves a connection, and the connection itself.
//!
//! The channels come from `flume` and from `futures::channel::oneshot`. A value of one of their
//! types is opaque here; what is known of two ends is whether they belong to one channel, and
//! how many messages that channel holds at most. That two calls make two different channels is
//! left unsaid, and so is what a channel holds at a time, since other tasks change it.

use futures::channel::oneshot;
use vstd::prelude::*;

use crate::error::XsError;
use crate::interface::{XsAsyncMessage, XsWatchToken};
use crate::wire::XsMessage;

verus! {

/// `flume::Sender`, the end of a channel that messages are put in.
#[verifier::external_type_specification]
#[verifier::external_body]
#[verifier::reject_recursive_types(T)]
pub struct ExFlumeSender<T>(flume::Sender<T>);

/// `flume::Receiver`, the end of a channel that messages are taken from.
#[verifier::external_type_specification]
#[verifier::external_body]
#[verifier::reject_recursive_types(T)]
pub struct ExFlumeReceiver<T>(flume::Receiver<T>);

/// `flume::RecvError`, what a receiver reports once every sender is gone and nothing is left.
#[verifier::external_type_specification]
#[verifier::external_body]
pub struct ExFlumeRecvError(flume::RecvError);

/// `futures::channel::oneshot::Sender`, the end of a channel that one message is put in.
#[verifier::external_type_specification]
#[verifier::external_body]
#[verifier::reject_recursive_types(T)]
pub struct ExOneshotSender<T>(oneshot::Sender<T>);

/// `futures::channel::oneshot::Receiver`, the end of a channel that one message is taken from.
#[verifier::external_type_specification]
#[verifier::external_body]
#[verifier::reject_recursive_types(T)]
pub struct ExOneshotReceiver<T>(oneshot::Receiver<T>);

/// `futures::channel::oneshot::Canceled`, what a receiver reports once its sender is gone and
/// left nothing.
#[verifier::external_type_specification]
#[verifier::external_body]
pub struct ExOneshotCanceled(oneshot::Canceled);

/// True if the two are the ends of one channel that holds at most `capacity` messages, or any
/// number where there is no capacity.
pub uninterp spec fn message_channel(
    sender: flume::Sender<XsMessage>,
    receiver: flume::Receiver<XsMessage>,
    capacity: Option<usize>,
) -> bool;

/// True if the two are the ends of one channel that holds at most `capacity` events, or any
/// number where there is no capacity.
pub uninterp spec fn event_channel(
    sender: flume::Sender<String>,
    receiver: flume::Receiver<String>,
    capacity: Option<usize>,
) -> bool;

/// True if the two are the ends of one channel that holds at most `capacity` client messages, or
/// any number where there is no capacity.
pub uninterp spec fn client_channel(
    sender: flume::Sender<XsAsyncMessage>,
    receiver: flume::Receiver<XsAsyncMessage>,
    capacity: Option<usize>,
) -> bool;

/// True if the two are the ends of one channel for a single response.
pub uninterp spec fn response_channel(
    sender: oneshot::Sender<XsMessage>,
    receiver: oneshot::Receiver<XsMessage>,
) -> bool;

/// True if the two are the ends of one channel for the outcome of a single subscription.
pub uninterp spec fn subscription_channel(
    sender: oneshot::Sender<Result<XsWatchToken, XsError>>,
    receiver: oneshot::Receiver<Result<XsWatchToken, XsError>>,
) -> bool;

/// Calls `flume::bounded`: the sender and the receiver it returns are the two ends of one new
/// channel, which holds at most as many messages as asked for.
#[verifier::external_body]
pub(crate) fn bounded_messages(capacity: usize) -> (ends: (
    flume::Sender<XsMessage>,
    flume::Receiver<XsMessage>,
))
    ensures
        message_channel(ends.0, ends.1, Some(capacity)),
{
    flume::bounded(capacity)
}

/// Calls `flume::bounded`: the sender and the receiver it returns are the two ends of one new
/// channel, which holds at most as many events as asked for.
#[verifier::external_body]
pub(crate) fn bounded_events(capacity: usize) -> (ends: (
    flume::Sender<String>,
    flume::Receiver<String>,
))
    ensures
        event_channel(ends.0, ends.1, Some(capacity)),
{
    flume::bounded(capacity)
}

/// Calls `flume::unbounded`: the sender and the receiver it returns are the two ends of one new
/// channel without a capacity.
#[verifier::external_body]
pub(crate) fn unbounded_clients() -> (ends: (
    flume::Sender<XsAsyncMessage>,
    flume::Receiver<XsAsyncMessage>,
))
    ensures
        client_channel(ends.0, ends.1, None),
{
    flume::unbounded()
}

/// Calls `clone` of `flume::Sender`: the clone belongs to the channel of the sender it was made
/// from.
#[verifier::external_body]
pub(crate) fn clone_client_sender(sender: &flume::Sender<XsAsyncMessage>) -> (clone: flume::Sender<
    XsAsyncMessage,
>)
    ensures
        forall|receiver: flume::Receiver<XsAsyncMessage>, capacity: Option<usize>|
            #[trigger] client_channel(clone, receiver, capacity) == client_channel(
                *sender,
                receiver,
                capacity,
            ),
{
    sender.clone()
}

/// Calls `futures::channel::oneshot::channel`: the sender and the receiver it returns are the two
/// ends of one new channel.
#[verifier::external_body]
pub(crate) fn oneshot_response() -> (ends: (
    oneshot::Sender<XsMessage>,
    oneshot::Receiver<XsMessage>,
))
    ensures
        response_channel(ends.0, ends.1),
{
    oneshot::channel()
}

/// Calls `futures::channel::oneshot::channel`: the sender and the receiver it returns are the two
/// ends of one new channel.
#[verifier::external_body]
pub(crate) fn oneshot_subscription() -> (ends: (
    oneshot::Sender<Result<XsWatchToken, XsError>>,
    oneshot::Receiver<Result<XsWatchToken, XsError>>,
))
    ensures
        subscription_channel(ends.0, ends.1),
{
    oneshot::channel()
}

} // verus!
