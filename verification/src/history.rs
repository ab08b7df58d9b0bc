//! What holds of everything that clients and a connection do to the task between them.

use futures::channel::oneshot;
use vstd::prelude::*;

use crate::decimal::{decimal, law_decimal_round_trip};
use crate::error::XsError;
use crate::interface::{XsAsyncMessage, XsAsyncRequest, XsWatchToken};
use crate::laws::{law_strings_round_trip, lemma_decimal_nul_free, nul_free};
use crate::state::{
    client_step, confirms, event_of, is_free, is_live, is_watched, server_step, watch_payload,
    XsDelivery, XsPending, XsTable,
};
use crate::task::{
    law_task_stops_when_a_side_is_gone, serve_step, XsServeAction, XsServeEvent,
};
use crate::wire::{XsMessage, XsMessageType};
use crate::xs_async::{failure, XsReply};

verus! {

/// One thing that happens to the task that serves a connection.
pub enum XsStep {
    /// A client sends a message, and this is written out for it.
    Client(XsAsyncMessage, Option<XsMessage>),
    /// A message comes in from the connection, and this is handed on for it.
    Server(XsMessage, XsDelivery),
    /// Nothing that concerns the requests in flight or the watches.
    Idle,
}

/// True if the step leads from one table to the other.
pub open spec fn leads(pre: XsTable, step: XsStep, post: XsTable) -> bool {
    match step {
        XsStep::Client(message, out) => client_step(pre, message, post, out),
        XsStep::Server(message, delivery) => server_step(pre, message, post, delivery),
        XsStep::Idle => post == pre,
    }
}

/// True if the tables are what the steps lead through, one after the other.
pub open spec fn history(tables: Seq<XsTable>, steps: Seq<XsStep>) -> bool {
    &&& tables.len() == steps.len() + 1
    &&& forall|i: int|
        0 <= i < steps.len() ==> leads(tables[i], #[trigger] steps[i], tables[i + 1])
}

/// True if the step is the arrival of a response with this id.
pub open spec fn responds(step: XsStep, id: u32) -> bool {
    step matches XsStep::Server(message, _) && message.msg_type != XsMessageType::WatchEvent
        && message.request_id == id
}

/// A request stays in flight until the response with its id arrives, whatever else happens.
proof fn lemma_stays_in_flight(
    tables: Seq<XsTable>,
    steps: Seq<XsStep>,
    id: u32,
    from: int,
    to: int,
)
    requires
        history(tables, steps),
        0 <= from <= to <= steps.len(),
        tables[from].requests.contains_key(id),
        forall|i: int| from <= i < to ==> !responds(#[trigger] steps[i], id),
    ensures
        tables[to].requests.contains_key(id),
        tables[to].requests[id] == tables[from].requests[id],
    decreases to - from,
{
    if from < to {
        lemma_stays_in_flight(tables, steps, id, from, to - 1);
        assert(leads(tables[to - 1], steps[to - 1], tables[to - 1 + 1]));
        assert(!responds(steps[to - 1], id));
    }
}

/// Concurrent requests do not get in each other's way: whatever other clients send and whatever
/// else arrives in the meantime, the response to a request is handed, as it is, to the client
/// that sent the request.
pub proof fn law_response_reaches_its_client(
    tables: Seq<XsTable>,
    steps: Seq<XsStep>,
    request: XsAsyncRequest,
    sent: XsMessage,
    response: XsMessage,
    delivery: XsDelivery,
)
    requires
        history(tables, steps),
        steps.len() >= 2,
        steps.first() == XsStep::Client(XsAsyncMessage::Request(request), Some(sent)),
        steps.last() == XsStep::Server(response, delivery),
        responds(steps.last(), sent.request_id),
        forall|i: int|
            0 < i < steps.len() - 1 ==> !responds(#[trigger] steps[i], sent.request_id),
    ensures
        delivery == XsDelivery::Response(request.response_sender, response),
{
    let n = steps.len() - 1;
    assert(leads(tables[0], steps[0], tables[1]));
    lemma_stays_in_flight(tables, steps, sent.request_id, 1, n);
    assert(leads(tables[n], steps[n], tables[n + 1]));
}

/// No two requests are in flight under one id: a request goes out under an id that no earlier
/// request has whose response has not arrived.
pub proof fn law_ids_in_flight_differ(
    tables: Seq<XsTable>,
    steps: Seq<XsStep>,
    first: XsMessage,
    second: XsMessage,
)
    requires
        history(tables, steps),
        steps.len() >= 2,
        steps.first() matches XsStep::Client(_, out) && out == Some(first),
        steps.last() matches XsStep::Client(_, out) && out == Some(second),
        forall|i: int|
            0 < i < steps.len() - 1 ==> !responds(#[trigger] steps[i], first.request_id),
    ensures
        first.request_id != second.request_id,
{
    let n = steps.len() - 1;
    assert(leads(tables[0], steps[0], tables[1]));
    lemma_stays_in_flight(tables, steps, first.request_id, 1, n);
    assert(leads(tables[n], steps[n], tables[n + 1]));
}

/// An event that repeats the path and the token of a watch names just these, so it is handed to
/// the watch with that token as long as a client wants it, and to nobody else.
pub proof fn law_event_reaches_its_watch(
    pre: XsTable,
    event: XsMessage,
    path: Seq<char>,
    token: u32,
    post: XsTable,
    delivery: XsDelivery,
)
    requires
        nul_free(path),
        event.msg_type == XsMessageType::WatchEvent,
        event.payload@ == watch_payload(path, token),
        server_step(pre, event, post, delivery),
    ensures
        post == pre,
        is_watched(pre.watches, token) ==> (delivery matches XsDelivery::Event(t, p) && t
            == XsWatchToken(token) && p@ == path),
        !is_watched(pre.watches, token) ==> delivery is Nothing,
{
    let strings = seq![path, decimal(token as nat)];
    lemma_decimal_nul_free(token as nat);
    law_decimal_round_trip(token as nat);
    law_strings_round_trip(strings, true);
    assert(event_of(event.payload@) == Some((path, token)));
}

/// A watch that was given up gets no more events, the other watches keep theirs, and the token of
/// a watch is not free for another one just because the watch was given up.
pub proof fn law_given_up_watch_is_silent(
    pre: XsTable,
    token: u32,
    post: XsTable,
    out: Option<XsMessage>,
)
    requires
        is_live(pre.watches, token),
        client_step(pre, XsAsyncMessage::WatchUnsubscribe(XsWatchToken(token)), post, out),
    ensures
        !is_watched(post.watches, token),
        forall|other: u32|
            other != token ==> #[trigger] is_watched(post.watches, other) == is_watched(
                pre.watches,
                other,
            ),
        !is_free(post.watches, token),
{
    assert forall|other: u32| other != token implies #[trigger] is_watched(post.watches, other)
        == is_watched(pre.watches, other) by {
        lemma_same_but_one(pre.watches, post.watches, token, other);
    }
}

/// Two maps that agree without one key agree on every other key.
proof fn lemma_same_but_one<V>(pre: Map<u32, V>, post: Map<u32, V>, key: u32, other: u32)
    requires
        post.remove(key) == pre.remove(key),
        other != key,
    ensures
        post.contains_key(other) == pre.contains_key(other),
        post.contains_key(other) ==> post[other] == pre[other],
{
    assert(post.remove(key).contains_key(other) == post.contains_key(other));
    assert(pre.remove(key).contains_key(other) == pre.contains_key(other));
    if post.contains_key(other) {
        assert(post.remove(key)[other] == post[other]);
        assert(pre.remove(key)[other] == pre[other]);
    }
}

/// A request in flight keeps agreeing with its watch as long as neither of them changes.
proof fn lemma_keeps_agreeing(pre: XsTable, post: XsTable, id: u32)
    requires
        pre.wf(),
        pre.requests.contains_key(id),
        post.requests.contains_key(id),
        post.requests[id] == pre.requests[id],
        pre.requests[id].token() matches Some(token) ==> {
            &&& post.watches.contains_key(token) == pre.watches.contains_key(token)
            &&& post.watches.contains_key(token) ==> post.watches[token] == pre.watches[token]
        },
    ensures
        post.agrees(id),
{
    assert(pre.agrees(id));
}

/// Whatever clients send, requests about watches and the watches keep agreeing.
proof fn lemma_client_keeps_agreement(
    pre: XsTable,
    message: XsAsyncMessage,
    post: XsTable,
    out: Option<XsMessage>,
)
    requires
        pre.wf(),
        client_step(pre, message, post, out),
    ensures
        post.wf(),
{
    match message {
        XsAsyncMessage::Request(_) => {
            if out is Some {
                assert forall|id: u32| #[trigger]
                    post.requests.contains_key(id) implies post.agrees(id) by {
                    if id != out->0.request_id {
                        lemma_keeps_agreeing(pre, post, id);
                    }
                }
            }
        },
        XsAsyncMessage::WatchSubscribe { path, event_sender, result_channel } => {
            if let Some(sent) = out {
                let new = sent.request_id;
                let token = post.requests[new].token()->0;
                assert(is_free(pre.watches, token));
                assert forall|id: u32| #[trigger]
                    post.requests.contains_key(id) implies post.agrees(id) && (id != new
                    ==> post.requests[id].token() != Some(token)) by {
                    if id != new {
                        assert(pre.agrees(id));
                        if post.requests[id].token() is Some {
                            assert(pre.watches.remove(token) =~= pre.watches);
                            lemma_same_but_one(
                                pre.watches,
                                post.watches,
                                token,
                                pre.requests[id].token()->0,
                            );
                        }
                        lemma_keeps_agreeing(pre, post, id);
                    }
                }
            }
        },
        XsAsyncMessage::WatchUnsubscribe(XsWatchToken(token)) => {
            if is_live(pre.watches, token) {
                assert forall|id: u32| #[trigger]
                    pre.requests.contains_key(id) implies pre.requests[id].token() != Some(token)
                    && post.agrees(id) by {
                    assert(pre.agrees(id));
                    if pre.requests[id].token() is Some {
                        lemma_same_but_one(
                            pre.watches,
                            post.watches,
                            token,
                            pre.requests[id].token()->0,
                        );
                    }
                    lemma_keeps_agreeing(pre, post, id);
                }
            }
        },
    }
}

/// Whatever comes in from the connection, requests about watches and the watches keep agreeing.
proof fn lemma_server_keeps_agreement(
    pre: XsTable,
    message: XsMessage,
    post: XsTable,
    delivery: XsDelivery,
)
    requires
        pre.wf(),
        server_step(pre, message, post, delivery),
    ensures
        post.wf(),
{
    let done = message.request_id;
    if message.msg_type != XsMessageType::WatchEvent && pre.requests.contains_key(done) {
        assert(pre.agrees(done));
        assert forall|id: u32| #[trigger]
            post.requests.contains_key(id) implies post.agrees(id) by {
            assert(id != done);
            assert(pre.requests.contains_key(id));
            if let Some(token) = pre.requests[done].token() {
                assert(pre.requests[done].token() != pre.requests[id].token());
                if pre.requests[id].token() is Some {
                    let other = pre.requests[id].token()->0;
                    if message.msg_type == XsMessageType::Watch && pre.requests[done] is Watch {
                        assert(confirms(pre.watches, token, post.watches));
                        lemma_same_but_one(pre.watches, post.watches, token, other);
                    } else {
                        assert(post.watches == pre.watches.remove(token));
                    }
                }
            }
            lemma_keeps_agreeing(pre, post, id);
        }
    }
}

/// Whatever happens, requests about watches and the watches keep agreeing.
pub proof fn law_steps_keep_agreement(pre: XsTable, step: XsStep, post: XsTable)
    requires
        pre.wf(),
        leads(pre, step, post),
    ensures
        post.wf(),
{
    match step {
        XsStep::Client(message, out) => lemma_client_keeps_agreement(pre, message, post, out),
        XsStep::Server(message, delivery) => lemma_server_keeps_agreement(
            pre,
            message,
            post,
            delivery,
        ),
        XsStep::Idle => {},
    }
}

/// True if the step is the answer of Xenstore that it does not accept the watch with this token.
pub open spec fn refuses(pre: XsTable, step: XsStep, token: u32) -> bool {
    match step {
        XsStep::Server(message, _) => {
            &&& message.msg_type != XsMessageType::WatchEvent
            &&& message.msg_type != XsMessageType::Watch
            &&& pre.requests.contains_key(message.request_id)
            &&& pre.requests[message.request_id] matches XsPending::Watch(t, _)
            &&& t == XsWatchToken(token)
        },
        _ => false,
    }
}

/// True if the step is a client that gives the watch with this token up.
pub open spec fn gives_up(step: XsStep, token: u32) -> bool {
    step matches XsStep::Client(message, _) && message == XsAsyncMessage::WatchUnsubscribe(
        XsWatchToken(token),
    )
}

/// True if the events of the watch with this token go to the sender.
pub open spec fn goes_to(
    table: XsTable,
    token: u32,
    event_sender: flume::Sender<String>,
) -> bool {
    table.watches.contains_key(token) && table.watches[token].event_sender == Some(event_sender)
}

/// One step leaves a watch alone that is neither refused nor given up by it. A watch that
/// Xenstore has not accepted yet cannot be given up.
proof fn lemma_watch_survives(
    pre: XsTable,
    step: XsStep,
    post: XsTable,
    token: u32,
    event_sender: flume::Sender<String>,
)
    requires
        pre.wf(),
        leads(pre, step, post),
        goes_to(pre, token, event_sender),
        !refuses(pre, step, token),
        gives_up(step, token) ==> !is_live(pre.watches, token),
    ensures
        goes_to(post, token, event_sender),
{
    match step {
        XsStep::Client(message, out) => match message {
            XsAsyncMessage::Request(_) => {},
            XsAsyncMessage::WatchSubscribe { path, event_sender: _, result_channel } => {
                if let Some(sent) = out {
                    let new = post.requests[sent.request_id].token()->0;
                    assert(is_free(pre.watches, new));
                    assert(pre.watches.remove(new) =~= pre.watches);
                    lemma_same_but_one(pre.watches, post.watches, new, token);
                }
            },
            XsAsyncMessage::WatchUnsubscribe(XsWatchToken(other)) => {
                if is_live(pre.watches, other) {
                    lemma_same_but_one(pre.watches, post.watches, other, token);
                }
            },
        },
        XsStep::Server(message, delivery) => {
            let done = message.request_id;
            if message.msg_type != XsMessageType::WatchEvent && pre.requests.contains_key(done) {
                assert(pre.agrees(done));
                match pre.requests[done] {
                    XsPending::Request(_) => {},
                    XsPending::Watch(XsWatchToken(other), _) => {
                        if other != token && message.msg_type == XsMessageType::Watch {
                            assert(confirms(pre.watches, other, post.watches));
                            lemma_same_but_one(pre.watches, post.watches, other, token);
                        }
                    },
                    XsPending::Unwatch(_) => {},
                }
            }
        },
        XsStep::Idle => {},
    }
}

/// A watch stays with its client until it is refused or given up, whatever else happens.
proof fn lemma_watch_stays(
    tables: Seq<XsTable>,
    steps: Seq<XsStep>,
    token: u32,
    event_sender: flume::Sender<String>,
    from: int,
    to: int,
)
    requires
        history(tables, steps),
        0 <= from <= to <= steps.len(),
        tables[from].wf(),
        goes_to(tables[from], token, event_sender),
        forall|i: int|
            from <= i < to ==> !refuses(tables[i], #[trigger] steps[i], token) && !gives_up(
                steps[i],
                token,
            ),
    ensures
        tables[to].wf(),
        goes_to(tables[to], token, event_sender),
    decreases to - from,
{
    if from < to {
        lemma_watch_stays(tables, steps, token, event_sender, from, to - 1);
        let last = to - 1;
        assert(leads(tables[last], steps[last], tables[last + 1]));
        law_steps_keep_agreement(tables[last], steps[last], tables[last + 1]);
        lemma_watch_survives(tables[last], steps[last], tables[last + 1], token, event_sender);
    }
}

/// Watches do not get in each other's way: whatever other clients send and whatever else arrives
/// in the meantime, an event of a watch is handed, with its path, to the client that subscribed,
/// unless Xenstore refused the watch or the client gave it up.
pub proof fn law_watch_gets_its_events(
    tables: Seq<XsTable>,
    steps: Seq<XsStep>,
    path: String,
    event_sender: flume::Sender<String>,
    result_channel: oneshot::Sender<Result<XsWatchToken, XsError>>,
    sent: XsMessage,
    token: u32,
    event: XsMessage,
    changed: Seq<char>,
    delivery: XsDelivery,
)
    requires
        history(tables, steps),
        tables.first().wf(),
        steps.len() >= 2,
        steps.first() == XsStep::Client(
            XsAsyncMessage::WatchSubscribe { path, event_sender, result_channel },
            Some(sent),
        ),
        tables[1].requests[sent.request_id] == XsPending::Watch(
            XsWatchToken(token),
            result_channel,
        ),
        steps.last() == XsStep::Server(event, delivery),
        event.msg_type == XsMessageType::WatchEvent,
        event.payload@ == watch_payload(changed, token),
        nul_free(changed),
        forall|i: int|
            0 < i < steps.len() - 1 ==> !refuses(tables[i], #[trigger] steps[i], token)
                && !gives_up(steps[i], token),
    ensures
        delivery matches XsDelivery::Event(t, p) && t == XsWatchToken(token) && p@ == changed,
        goes_to(tables[steps.len() - 1], token, event_sender),
{
    let n = steps.len() - 1;
    assert(leads(tables[0], steps[0], tables[1]));
    law_steps_keep_agreement(tables[0], steps[0], tables[1]);
    lemma_watch_stays(tables, steps, token, event_sender, 1, n);
    assert(leads(tables[n], steps[n], tables[n + 1]));
    law_event_reaches_its_watch(tables[n], event, changed, token, tables[n + 1], delivery);
}

/// A subscription in flight is for a watch whose events go to the client that subscribed.
proof fn lemma_subscription_in_flight(
    tables: Seq<XsTable>,
    steps: Seq<XsStep>,
    id: u32,
    token: u32,
    event_sender: flume::Sender<String>,
    result_channel: oneshot::Sender<Result<XsWatchToken, XsError>>,
    from: int,
    to: int,
)
    requires
        history(tables, steps),
        0 <= from <= to <= steps.len(),
        tables[from].wf(),
        tables[from].requests.contains_key(id),
        tables[from].requests[id] == XsPending::Watch(XsWatchToken(token), result_channel),
        goes_to(tables[from], token, event_sender),
        forall|i: int| from <= i < to ==> !responds(#[trigger] steps[i], id),
    ensures
        tables[to].wf(),
        tables[to].requests.contains_key(id),
        tables[to].requests[id] == XsPending::Watch(XsWatchToken(token), result_channel),
        goes_to(tables[to], token, event_sender),
    decreases to - from,
{
    if from < to {
        let last = to - 1;
        lemma_subscription_in_flight(
            tables,
            steps,
            id,
            token,
            event_sender,
            result_channel,
            from,
            last,
        );
        lemma_stays_in_flight(tables, steps, id, from, to);
        let pre = tables[last];
        let step = steps[last];
        assert(leads(pre, step, tables[last + 1]));
        law_steps_keep_agreement(pre, step, tables[last + 1]);
        assert(pre.agrees(id));
        assert(!responds(step, id));
        assert(!refuses(pre, step, token)) by {
            if refuses(pre, step, token) {
                let other = step->Server_0.request_id;
                assert(pre.requests[other].token() == pre.requests[id].token());
            }
        }
        lemma_watch_survives(pre, step, tables[last + 1], token, event_sender);
    }
}

/// The client that subscribed is told what came of it, whatever other clients send and whatever
/// else arrives in the meantime. Where Xenstore accepts the watch, the client is told the token
/// of a watch whose events go to it; where it does not, the client is told why.
pub proof fn law_subscriber_is_told_the_outcome(
    tables: Seq<XsTable>,
    steps: Seq<XsStep>,
    path: String,
    event_sender: flume::Sender<String>,
    result_channel: oneshot::Sender<Result<XsWatchToken, XsError>>,
    sent: XsMessage,
    response: XsMessage,
    delivery: XsDelivery,
)
    requires
        history(tables, steps),
        tables.first().wf(),
        steps.len() >= 2,
        steps.first() == XsStep::Client(
            XsAsyncMessage::WatchSubscribe { path, event_sender, result_channel },
            Some(sent),
        ),
        steps.last() == XsStep::Server(response, delivery),
        responds(steps.last(), sent.request_id),
        forall|i: int|
            0 < i < steps.len() - 1 ==> !responds(#[trigger] steps[i], sent.request_id),
    ensures
        delivery matches XsDelivery::Subscription(channel, outcome) && channel == result_channel
            && if response.msg_type == XsMessageType::Watch {
            &&& outcome matches Ok(token)
            &&& sent.payload@ == watch_payload(path@, token.0)
            &&& goes_to(tables[1], token.0, event_sender)
            &&& goes_to(tables.last(), token.0, event_sender)
            &&& is_live(tables.last().watches, token.0)
        } else {
            outcome matches Err(e) && failure(XsMessageType::Watch, XsReply::Response(response), e)
        },
{
    let n = steps.len() - 1;
    assert(leads(tables[0], steps[0], tables[1]));
    law_steps_keep_agreement(tables[0], steps[0], tables[1]);
    let token = tables[1].requests[sent.request_id].token()->0;
    lemma_subscription_in_flight(
        tables,
        steps,
        sent.request_id,
        token,
        event_sender,
        result_channel,
        1,
        n,
    );
    assert(leads(tables[n], steps[n], tables[n + 1]));
    if response.msg_type == XsMessageType::Watch {
        assert(confirms(tables[n].watches, token, tables[n + 1].watches));
    }
}

/// A watch that was given up does not leak its token: once the response to the request that ends
/// the watch arrives, the token is free for another one, whatever happened in the meantime.
pub proof fn law_token_of_given_up_watch_is_freed(
    tables: Seq<XsTable>,
    steps: Seq<XsStep>,
    token: u32,
    sent: XsMessage,
)
    requires
        history(tables, steps),
        steps.len() >= 2,
        is_live(tables.first().watches, token),
        steps.first() == XsStep::Client(
            XsAsyncMessage::WatchUnsubscribe(XsWatchToken(token)),
            Some(sent),
        ),
        responds(steps.last(), sent.request_id),
        forall|i: int|
            0 < i < steps.len() - 1 ==> !responds(#[trigger] steps[i], sent.request_id),
    ensures
        is_free(tables.last().watches, token),
{
    let n = steps.len() - 1;
    assert(leads(tables[0], steps[0], tables[1]));
    lemma_stays_in_flight(tables, steps, sent.request_id, 1, n);
    assert(leads(tables[n], steps[n], tables[n + 1]));
}

/// The request that an action writes out, if it writes one out.
pub open spec fn written(action: XsServeAction) -> Option<XsMessage> {
    match action {
        XsServeAction::Write(request) => Some(request),
        _ => None,
    }
}

/// What an event at the task between the clients and the connection, and what the task does about
/// it, come down to. Where the outcome of a subscription cannot be handed on, the watch is given
/// up as if its client had done so.
pub open spec fn step_of(event: XsServeEvent, action: XsServeAction) -> XsStep {
    match event {
        XsServeEvent::FromClient(Some(message)) => XsStep::Client(message, written(action)),
        XsServeEvent::Undelivered(Ok(token)) => XsStep::Client(
            XsAsyncMessage::WatchUnsubscribe(token),
            written(action),
        ),
        XsServeEvent::FromServer(Some(message)) => XsStep::Server(message, action->Deliver_0),
        _ => XsStep::Idle,
    }
}

/// The steps that a run of the task between the clients and the connection comes down to.
pub open spec fn steps_of(events: Seq<XsServeEvent>, actions: Seq<XsServeAction>) -> Seq<XsStep> {
    Seq::new(events.len(), |i: int| step_of(events[i], actions[i]))
}

/// True if the tables are what a run of the task between the clients and the connection leads
/// through, with these events and what the task does about them.
pub open spec fn serving(
    tables: Seq<XsTable>,
    events: Seq<XsServeEvent>,
    actions: Seq<XsServeAction>,
) -> bool {
    &&& tables.len() == events.len() + 1
    &&& actions.len() == events.len()
    &&& forall|i: int|
        0 <= i < events.len() ==> serve_step(
            tables[i],
            #[trigger] events[i],
            tables[i + 1],
            actions[i],
        )
}

/// What the task does about one event is the step that the event comes down to.
proof fn lemma_serve_step_leads(
    pre: XsTable,
    event: XsServeEvent,
    post: XsTable,
    action: XsServeAction,
)
    requires
        serve_step(pre, event, post, action),
    ensures
        leads(pre, step_of(event, action), post),
{
}

/// A run of the task between the clients and the connection is a history, through the same tables
/// from the first to the last: what clients send, what comes in from the connection and the
/// outcomes that cannot be handed on are its steps, and every other event leaves the table as it
/// was. So what holds of histories holds of what the task does.
pub proof fn law_serving_is_a_history(
    tables: Seq<XsTable>,
    events: Seq<XsServeEvent>,
    actions: Seq<XsServeAction>,
)
    requires
        serving(tables, events, actions),
    ensures
        history(tables, steps_of(events, actions)),
        forall|i: int|
            0 <= i < events.len() && step_of(#[trigger] events[i], actions[i]) is Idle
                ==> tables[i + 1] == tables[i],
{
    let steps = steps_of(events, actions);
    assert forall|i: int| 0 <= i < steps.len() implies leads(
        tables[i],
        #[trigger] steps[i],
        tables[i + 1],
    ) by {
        lemma_serve_step_leads(tables[i], events[i], tables[i + 1], actions[i]);
    }
    assert forall|i: int|
        0 <= i < events.len() && step_of(#[trigger] events[i], actions[i]) is Idle implies tables[i
        + 1] == tables[i] by {
        lemma_serve_step_leads(tables[i], events[i], tables[i + 1], actions[i]);
    }
}

/// Whatever the task between the clients and the connection does, requests about watches and the
/// watches keep agreeing, from one end of a run to the other.
pub proof fn law_serving_keeps_agreement(
    tables: Seq<XsTable>,
    events: Seq<XsServeEvent>,
    actions: Seq<XsServeAction>,
)
    requires
        serving(tables, events, actions),
        tables.first().wf(),
    ensures
        forall|i: int| 0 <= i < tables.len() ==> (#[trigger] tables[i]).wf(),
{
    law_serving_is_a_history(tables, events, actions);
    assert forall|i: int| 0 <= i < tables.len() implies (#[trigger] tables[i]).wf() by {
        lemma_history_keeps_agreement(tables, steps_of(events, actions), i);
    }
}

proof fn lemma_history_keeps_agreement(tables: Seq<XsTable>, steps: Seq<XsStep>, i: int)
    requires
        history(tables, steps),
        tables.first().wf(),
        0 <= i < tables.len(),
    ensures
        tables[i].wf(),
    decreases i,
{
    if i > 0 {
        let last = i - 1;
        lemma_history_keeps_agreement(tables, steps, last);
        assert(leads(tables[last], steps[last], tables[last + 1]));
        law_steps_keep_agreement(tables[last], steps[last], tables[last + 1]);
    }
}

/// Whatever else the task between the clients and the connection has to do in the meantime, it
/// hands the response to a request, as it is, to the client that sent the request.
pub proof fn law_task_hands_responses_to_their_clients(
    tables: Seq<XsTable>,
    events: Seq<XsServeEvent>,
    actions: Seq<XsServeAction>,
    request: XsAsyncRequest,
    sent: XsMessage,
    response: XsMessage,
)
    requires
        serving(tables, events, actions),
        events.len() >= 2,
        events.first() == XsServeEvent::FromClient(Some(XsAsyncMessage::Request(request))),
        actions.first() == XsServeAction::Write(sent),
        events.last() == XsServeEvent::FromServer(Some(response)),
        response.msg_type != XsMessageType::WatchEvent,
        response.request_id == sent.request_id,
        forall|i: int|
            0 < i < events.len() - 1 ==> !responds(
                step_of(#[trigger] events[i], actions[i]),
                sent.request_id,
            ),
    ensures
        actions.last() == XsServeAction::Deliver(
            XsDelivery::Response(request.response_sender, response),
        ),
{
    let n = events.len() - 1;
    let steps = steps_of(events, actions);
    law_serving_is_a_history(tables, events, actions);
    assert(serve_step(tables[n], events[n], tables[n + 1], actions[n]));
    assert forall|i: int| 0 < i < steps.len() - 1 implies !responds(
        #[trigger] steps[i],
        sent.request_id,
    ) by {
        assert(!responds(step_of(events[i], actions[i]), sent.request_id));
    }
    law_response_reaches_its_client(
        tables,
        steps,
        request,
        sent,
        response,
        actions[n]->Deliver_0,
    );
}

/// However far a run of the task between the clients and the connection got, and whatever happened
/// before, the task stops as soon as the connection is gone, no client is left or a request cannot
/// be written out, and never otherwise.
pub proof fn law_serving_stops_when_a_side_is_gone(
    tables: Seq<XsTable>,
    events: Seq<XsServeEvent>,
    actions: Seq<XsServeAction>,
    i: int,
)
    requires
        serving(tables, events, actions),
        0 <= i < events.len(),
    ensures
        actions[i] is Stop <==> events[i] == XsServeEvent::FromServer(None) || events[i]
            == XsServeEvent::FromClient(None) || events[i] == XsServeEvent::Written(false),
{
    assert(serve_step(tables[i], events[i], tables[i + 1], actions[i]));
    law_task_stops_when_a_side_is_gone(tables[i], events[i], tables[i + 1], actions[i]);
}

} // verus!
