//! The tasks behind a client: one takes messages off the connection, one puts messages on it,
//! and one stands between those two and the clients.

use vstd::prelude::*;

use crate::channel::{bounded_messages, client_channel, message_channel, unbounded_clients};
use crate::error::XsError;
use crate::interface::{XsAsyncMessage, XsWatchToken};
use crate::state::{
    client_step, server_step, XsAsyncState, XsDelivery, XsPending, XsTable, XsWatch,
};
use crate::wire::XsMessage;
use crate::xs_async::XsAsyncImpl;

verus! {

/// How many messages wait on either side of the connection before the sender has to wait.
pub const MESSAGE_QUEUE_LEN: usize = 4;

/// Everything that the tasks behind a client are made of.
#[derive(Debug)]
pub struct XenstoreTask {
    /// Where messages off the connection are put.
    pub response_tx: flume::Sender<XsMessage>,
    /// Where messages off the connection are taken from.
    pub xs_receiver: flume::Receiver<XsMessage>,
    /// Where messages for the connection are put.
    pub xs_sender: flume::Sender<XsMessage>,
    /// Where messages for the connection are taken from.
    pub request_rx: flume::Receiver<XsMessage>,
    /// Where messages of clients are taken from.
    pub xs_async_rx: flume::Receiver<XsAsyncMessage>,
    /// What is kept track of between the two sides.
    pub state: XsAsyncState,
    /// The client.
    pub client: XsAsyncImpl,
}

impl XenstoreTask {
    /// True if each pair of ends belongs to one channel, and nothing is kept track of yet.
    pub open spec fn wf(&self) -> bool {
        &&& message_channel(self.response_tx, self.xs_receiver, Some(MESSAGE_QUEUE_LEN))
        &&& message_channel(self.xs_sender, self.request_rx, Some(MESSAGE_QUEUE_LEN))
        &&& client_channel(self.client.spec_sender(), self.xs_async_rx, None)
        &&& self.state@ == (XsTable { requests: Map::empty(), watches: Map::empty() })
    }
}

/// Lays out the tasks behind a client on a smol executor.
pub fn run_xenstore_task() -> (task: Result<XenstoreTask, XsError>)
    ensures
        task matches Ok(t) && t.wf(),
{
    let (response_tx, xs_receiver) = bounded_messages(MESSAGE_QUEUE_LEN);
    let (xs_sender, request_rx) = bounded_messages(MESSAGE_QUEUE_LEN);
    let (xs_async_tx, xs_async_rx) = unbounded_clients();
    let state = XsAsyncState::default();
    match XsAsyncImpl::new(xs_async_tx) {
        Ok(client) => Ok(
            XenstoreTask {
                response_tx,
                xs_receiver,
                xs_sender,
                request_rx,
                xs_async_rx,
                state,
                client,
            },
        ),
        Err(e) => Err(e),
    }
}

/// Lays out the tasks behind a client on a Tokio runtime.
pub fn launch_xenstore_task() -> (task: Result<XenstoreTask, XsError>)
    ensures
        task matches Ok(t) && t.wf(),
{
    run_xenstore_task()
}

/// What happened to the task between the clients and the connection.
#[derive(Debug)]
pub enum XsServeEvent {
    /// It was started.
    Started,
    /// A client sent a message, or all clients are gone.
    FromClient(Option<XsAsyncMessage>),
    /// A message came in from the connection, or the connection is gone.
    FromServer(Option<XsMessage>),
    /// A request was written out, or could not be.
    Written(bool),
    /// What was to be handed on was handed on, or its client is gone.
    Delivered,
    /// The outcome of a subscription could not be handed on.
    Undelivered(Result<XsWatchToken, XsError>),
}

/// What the task between the clients and the connection does next.
#[derive(Debug)]
pub enum XsServeAction {
    /// Wait for a client or the connection.
    Wait,
    /// Write this request out.
    Write(XsMessage),
    /// Hand this on.
    Deliver(XsDelivery),
    /// Stop, and drop everything that is kept track of.
    Stop,
}

/// True if the action is to write a request out that the message of a client leads to, or to wait
/// where it leads to none.
pub open spec fn serves_client(
    pre: XsTable,
    message: XsAsyncMessage,
    post: XsTable,
    action: XsServeAction,
) -> bool {
    match action {
        XsServeAction::Write(request) => client_step(pre, message, post, Some(request)),
        XsServeAction::Wait => client_step(pre, message, post, None),
        _ => false,
    }
}

/// How an event changes what the task keeps track of, and what it does next.
pub open spec fn serve_step(
    pre: XsTable,
    event: XsServeEvent,
    post: XsTable,
    action: XsServeAction,
) -> bool {
    match event {
        XsServeEvent::FromClient(Some(message)) => serves_client(pre, message, post, action),
        XsServeEvent::FromServer(Some(message)) => action matches XsServeAction::Deliver(delivery)
            && server_step(pre, message, post, delivery),
        XsServeEvent::Undelivered(Ok(token)) => serves_client(
            pre,
            XsAsyncMessage::WatchUnsubscribe(token),
            post,
            action,
        ),
        XsServeEvent::FromClient(None)
        | XsServeEvent::FromServer(None)
        | XsServeEvent::Written(false) => post == pre && action is Stop,
        XsServeEvent::Started
        | XsServeEvent::Written(true)
        | XsServeEvent::Delivered
        | XsServeEvent::Undelivered(Err(_)) => post == pre && action is Wait,
    }
}

/// Decides what the task between the clients and the connection does next. It stops once all
/// clients are gone, or the connection is.
pub fn serve(state: &mut XsAsyncState, event: XsServeEvent) -> (action: XsServeAction)
    ensures
        serve_step(old(state)@, event, final(state)@, action),
{
    let out = match event {
        XsServeEvent::FromClient(Some(message)) => state.on_client(message),
        XsServeEvent::FromServer(Some(message)) => {
            return XsServeAction::Deliver(state.on_server(message));
        },
        XsServeEvent::Undelivered(outcome) => state.on_undelivered(outcome),
        XsServeEvent::FromClient(None) | XsServeEvent::FromServer(None) => {
            return XsServeAction::Stop;
        },
        XsServeEvent::Written(done) => {
            if !done {
                return XsServeAction::Stop;
            }
            None
        },
        XsServeEvent::Started | XsServeEvent::Delivered => None,
    };
    match out {
        Some(request) => XsServeAction::Write(request),
        None => XsServeAction::Wait,
    }
}

/// Which way a task carries messages.
#[derive(Clone, Copy, Debug, PartialEq, Eq, Structural)]
pub enum XsDirection {
    /// Off the connection.
    Receive,
    /// Onto the connection.
    Send,
}

/// What happened to a task that carries messages.
#[derive(Debug)]
pub enum XsCarryEvent {
    /// It was started.
    Started,
    /// It took a message, or there are no more to take.
    Taken(Option<XsMessage>),
    /// It put a message down, or could not.
    Put(bool),
}

/// Why a task that carries messages stopped.
#[derive(Clone, Copy, Debug, PartialEq, Eq, Structural)]
pub enum XsCarryFailure {
    /// No more messages are read off the connection.
    Read,
    /// A message could not be written onto the connection.
    Write,
}

/// What a task that carries messages does next.
#[derive(Debug)]
pub enum XsCarryAction {
    /// Take the next message.
    Take,
    /// Put this message down.
    Put(XsMessage),
    /// Stop, and report the failure if there is one.
    Stop(Option<XsCarryFailure>),
}

/// What a task that carries messages does next.
pub open spec fn carry_step(direction: XsDirection, event: XsCarryEvent) -> XsCarryAction {
    match event {
        XsCarryEvent::Started | XsCarryEvent::Put(true) => XsCarryAction::Take,
        XsCarryEvent::Taken(Some(message)) => XsCarryAction::Put(message),
        XsCarryEvent::Taken(None) => XsCarryAction::Stop(
            match direction {
                XsDirection::Receive => Some(XsCarryFailure::Read),
                XsDirection::Send => None,
            },
        ),
        XsCarryEvent::Put(false) => XsCarryAction::Stop(
            match direction {
                XsDirection::Receive => Some(XsCarryFailure::Read),
                XsDirection::Send => Some(XsCarryFailure::Write),
            },
        ),
    }
}

/// Decides what a task that carries messages does next: it takes a message and puts it down, one
/// after the other, until there is none to take or it cannot put one down.
pub fn carry(direction: XsDirection, event: XsCarryEvent) -> (action: XsCarryAction)
    ensures
        action == carry_step(direction, event),
{
    match event {
        XsCarryEvent::Started => XsCarryAction::Take,
        XsCarryEvent::Taken(Some(message)) => XsCarryAction::Put(message),
        XsCarryEvent::Taken(None) => match direction {
            XsDirection::Receive => XsCarryAction::Stop(Some(XsCarryFailure::Read)),
            XsDirection::Send => XsCarryAction::Stop(None),
        },
        XsCarryEvent::Put(done) => if done {
            XsCarryAction::Take
        } else {
            match direction {
                XsDirection::Receive => XsCarryAction::Stop(Some(XsCarryFailure::Read)),
                XsDirection::Send => XsCarryAction::Stop(Some(XsCarryFailure::Write)),
            }
        },
    }
}

/// The messages that a task puts down, one after the other, when the messages it takes and the
/// luck it has with putting them down are as given.
pub open spec fn carried(
    direction: XsDirection,
    event: XsCarryEvent,
    taken: Seq<Option<XsMessage>>,
    put: Seq<bool>,
) -> Seq<XsMessage>
    decreases taken.len() + put.len(),
{
    match carry_step(direction, event) {
        XsCarryAction::Take => if taken.len() == 0 {
            seq![]
        } else {
            carried(direction, XsCarryEvent::Taken(taken[0]), taken.skip(1), put)
        },
        XsCarryAction::Put(message) => if put.len() == 0 {
            seq![message]
        } else {
            seq![message] + carried(direction, XsCarryEvent::Put(put[0]), taken, put.skip(1))
        },
        XsCarryAction::Stop(_) => seq![],
    }
}

/// True if the task gets as far as putting down the message it takes at place `k`: it takes a
/// message each time up to then, and puts each one before it down.
pub open spec fn gets_to(taken: Seq<Option<XsMessage>>, put: Seq<bool>, k: int) -> bool {
    &&& 0 <= k < taken.len()
    &&& k <= put.len()
    &&& forall|i: int| 0 <= i <= k ==> #[trigger] taken[i] is Some
    &&& forall|i: int| 0 <= i < k ==> #[trigger] put[i]
}

/// Messages are carried as they are and in order, none is left out and none comes twice: the
/// message put down at a place is the one taken at that place, and there is one at every place
/// that the task gets to and at no other.
pub proof fn law_messages_carried_in_order(
    direction: XsDirection,
    taken: Seq<Option<XsMessage>>,
    put: Seq<bool>,
)
    ensures
        forall|k: int|
            0 <= k < carried(direction, XsCarryEvent::Started, taken, put).len()
                <==> #[trigger] gets_to(taken, put, k),
        forall|k: int|
            #![trigger taken[k]]
            gets_to(taken, put, k) ==> taken[k] == Some(
                carried(direction, XsCarryEvent::Started, taken, put)[k],
            ),
    decreases taken.len(),
{
    let all = carried(direction, XsCarryEvent::Started, taken, put);
    reveal_with_fuel(carried, 4);
    if taken.len() > 0 && taken[0] is Some {
        let first = taken[0]->0;
        if put.len() > 0 && put[0] {
            let taken_rest = taken.skip(1);
            let put_rest = put.skip(1);
            let rest = carried(direction, XsCarryEvent::Started, taken_rest, put_rest);
            law_messages_carried_in_order(direction, taken_rest, put_rest);
            assert(rest == carried(direction, XsCarryEvent::Put(true), taken_rest, put_rest));
            assert(all == seq![first] + rest);
            assert forall|k: int| 0 <= k < all.len() <==> #[trigger] gets_to(taken, put, k) by {
                if k == 0 {
                    assert(gets_to(taken, put, 0));
                } else {
                    assert(gets_to(taken, put, k) ==> gets_to(taken_rest, put_rest, k - 1)) by {
                        if gets_to(taken, put, k) {
                            assert forall|i: int|
                                0 <= i <= k - 1 implies #[trigger] taken_rest[i] is Some by {
                                assert(taken_rest[i] == taken[i + 1]);
                            }
                            assert forall|i: int| 0 <= i < k - 1 implies #[trigger] put_rest[i] by {
                                assert(put_rest[i] == put[i + 1]);
                            }
                        }
                    }
                    assert(gets_to(taken_rest, put_rest, k - 1) ==> gets_to(taken, put, k)) by {
                        if gets_to(taken_rest, put_rest, k - 1) {
                            assert forall|i: int|
                                0 <= i <= k implies #[trigger] taken[i] is Some by {
                                if i > 0 {
                                    assert(taken_rest[i - 1] == taken[i]);
                                }
                            }
                            assert forall|i: int| 0 <= i < k implies #[trigger] put[i] by {
                                if i > 0 {
                                    assert(put_rest[i - 1] == put[i]);
                                }
                            }
                        }
                    }
                }
            }
            assert forall|k: int|
                #![trigger taken[k]]
                gets_to(taken, put, k) implies taken[k] == Some(all[k]) by {
                if k > 0 {
                    assert(0 <= k < all.len());
                    assert(gets_to(taken_rest, put_rest, k - 1));
                    assert(taken_rest[k - 1] == taken[k]);
                }
            }
        } else {
            assert(all =~= seq![first]);
            assert forall|k: int| 0 <= k < all.len() <==> #[trigger] gets_to(taken, put, k) by {
                if gets_to(taken, put, k) && k > 0 {
                    assert(put[0]);
                }
            }
        }
    } else {
        assert(all =~= Seq::empty());
        assert forall|k: int| !#[trigger] gets_to(taken, put, k) by {
            if gets_to(taken, put, k) {
                assert(taken[0] is Some);
            }
        }
    }
}

/// A task that carries messages puts down every message that it takes, as it is. It takes the next
/// one when it starts and whenever it has put one down. It stops exactly if there is none to take
/// or it cannot put one down, and says why, unless all that is to be written was written.
pub proof fn law_carrying_stops_only_at_an_end(
    direction: XsDirection,
    event: XsCarryEvent,
    action: XsCarryAction,
)
    requires
        call_ensures(carry, (direction, event), action),
    ensures
        event matches XsCarryEvent::Taken(Some(message)) ==> action == XsCarryAction::Put(message),
        action is Take <==> event is Started || event == XsCarryEvent::Put(true),
        action is Put <==> (event matches XsCarryEvent::Taken(message) && message is Some),
        action is Stop <==> event == XsCarryEvent::Put(false) || (
        event matches XsCarryEvent::Taken(message) && message is None),
        action matches XsCarryAction::Stop(why) ==> match direction {
            XsDirection::Receive => why == Some(XsCarryFailure::Read),
            XsDirection::Send => if event is Put {
                why == Some(XsCarryFailure::Write)
            } else {
                why is None
            },
        },
{
}

/// The task between the clients and the connection stops once the connection is gone, no client is
/// left or a request cannot be written out, whatever requests are in flight and whatever watches
/// there are. It stops after nothing else.
pub proof fn law_task_stops_when_a_side_is_gone(
    pre: XsTable,
    event: XsServeEvent,
    post: XsTable,
    action: XsServeAction,
)
    requires
        serve_step(pre, event, post, action),
    ensures
        action is Stop <==> event == XsServeEvent::FromServer(None) || event
            == XsServeEvent::FromClient(None) || event == XsServeEvent::Written(false),
{
}

/// The task hands something on exactly after a message came in from the connection. It writes a
/// request out only after a client sent a message, or for a watch whose client is gone. Starting,
/// a request that was written out and something that was handed on only make it wait for more.
pub proof fn law_task_acts_on_messages_only(
    pre: XsTable,
    event: XsServeEvent,
    post: XsTable,
    action: XsServeAction,
)
    requires
        serve_step(pre, event, post, action),
    ensures
        action is Deliver <==> (event matches XsServeEvent::FromServer(message) && message is Some),
        action is Write ==> (event matches XsServeEvent::FromClient(message) && message is Some)
            || (event matches XsServeEvent::Undelivered(outcome) && outcome is Ok),
        event is Started || event is Delivered || event == XsServeEvent::Written(true) ==> action
            is Wait,
        event matches XsServeEvent::Undelivered(outcome) ==> (outcome is Err ==> action is Wait),
        !(action is Deliver) && !(event is FromClient) && !(event is Undelivered) ==> post == pre,
        action is Stop ==> post == pre,
{
}

/// The tasks behind a client start with no request in flight and no watch. What is put in for the
/// connection and what comes off it each waits in a channel that holds four messages, and what
/// clients send waits in one without a limit.
pub proof fn law_tasks_start_empty(
    smol: Result<XenstoreTask, XsError>,
    tokio: Result<XenstoreTask, XsError>,
)
    requires
        call_ensures(run_xenstore_task, (), smol),
        call_ensures(launch_xenstore_task, (), tokio),
    ensures
        smol matches Ok(t) && message_channel(t.response_tx, t.xs_receiver, Some(4usize))
            && message_channel(t.xs_sender, t.request_rx, Some(4usize)) && client_channel(
            t.client.spec_sender(),
            t.xs_async_rx,
            None,
        ) && t.state@.requests == Map::<u32, XsPending>::empty() && t.state@.watches == Map::<
            u32,
            XsWatch,
        >::empty(),
        tokio matches Ok(t) && message_channel(t.response_tx, t.xs_receiver, Some(4usize))
            && message_channel(t.xs_sender, t.request_rx, Some(4usize)) && client_channel(
            t.client.spec_sender(),
            t.xs_async_rx,
            None,
        ) && t.state@.requests == Map::<u32, XsPending>::empty() && t.state@.watches == Map::<
            u32,
            XsWatch,
        >::empty(),
{
}

} // verus!
