//! What clients tell the task that serves a connection.

use futures::channel::oneshot;
use vstd::prelude::*;

use crate::error::XsError;
use crate::wire::XsMessage;

verus! {

/// Names one watch of a connection.
#[derive(Clone, Copy, Debug, PartialEq, Eq, Structural)]
pub struct XsWatchToken(pub u32);

/// A request to write out, and where its response goes.
#[derive(Debug)]
pub struct XsAsyncRequest {
    pub request: XsMessage,
    pub response_sender: oneshot::Sender<XsMessage>,
}

/// One thing that a client asks of the task that serves the connection.
#[derive(Debug)]
pub enum XsAsyncMessage {
    /// Write a request out and hand its response back.
    Request(XsAsyncRequest),
    /// Watch a path: tell the client whether this worked, then of every change.
    WatchSubscribe {
        path: String,
        event_sender: flume::Sender<String>,
        result_channel: oneshot::Sender<Result<XsWatchToken, XsError>>,
    },
    /// Give a watch up.
    WatchUnsubscribe(XsWatchToken),
}

} // verus!
