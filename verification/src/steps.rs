//! What single messages do to the requests in flight and the watches.

use futures::channel::oneshot;
use vstd::prelude::*;
use vstd::utf8::encode_utf8;

use crate::decimal::{decimal, decimal_value, is_decimal};
use crate::error::XsError;
use crate::history::{history, leads, serving, XsStep};
use crate::interface::{XsAsyncMessage, XsAsyncRequest, XsWatchToken};
use crate::operations::{law_unanswered_request_tells_why, law_write_carries_path_and_data, tells};
use crate::payloads::{holds, law_join_by_parts, lemma_reads_what_it_holds};
use crate::state::{
    client_step, is_free, server_step, watch_payload, XsAsyncState, XsDelivery, XsPending, XsTable,
};
use crate::task::{serve, serve_step, XsServeAction, XsServeEvent};
use crate::text::{decode_all, split_nul};
use crate::wire::{law_message_is_written_whole, XsMessage, XsMessageType};
use crate::xs_async::{XsAsyncImpl, XsReply};

verus! {

/// True if `post` holds what `pre` does, and besides that just `value` under `key`, which was not
/// in use.
pub open spec fn gains<V>(pre: Map<u32, V>, key: u32, value: V, post: Map<u32, V>) -> bool {
    &&& !pre.contains_key(key)
    &&& post.contains_key(key)
    &&& post[key] == value
    &&& keeps_others(pre, key, post)
}

/// True if the two hold the same under every other key.
pub open spec fn keeps_others<V>(pre: Map<u32, V>, key: u32, post: Map<u32, V>) -> bool {
    forall|other: u32|
        #![trigger pre.contains_key(other)]
        #![trigger post.contains_key(other)]
        other != key ==> {
            &&& pre.contains_key(other) <==> post.contains_key(other)
            &&& pre.contains_key(other) ==> post[other] == pre[other]
        }
}

/// A request goes out with the type and exactly the payload that its client gave it; only the id
/// may differ, which no request in flight has. It is in flight from then on, its client waits for
/// the response, and nothing else changes. A request is turned down only if every id is in use.
pub proof fn law_request_goes_out_as_it_is(
    pre: XsTable,
    request: XsAsyncRequest,
    post: XsTable,
    out: Option<XsMessage>,
)
    requires
        client_step(pre, XsAsyncMessage::Request(request), post, out),
    ensures
        out matches Some(sent) ==> {
            &&& sent.msg_type == request.request.msg_type
            &&& sent.payload@ == request.request.payload@
            &&& gains(
                pre.requests,
                sent.request_id,
                XsPending::Request(request.response_sender),
                post.requests,
            )
        },
        out is None ==> post.requests == pre.requests,
        post.watches == pre.watches,
        out is None <==> forall|id: u32| #[trigger] pre.requests.contains_key(id),
{
    if let Some(sent) = out {
        assert(!pre.requests.contains_key(sent.request_id));
    }
}

/// In a history, where a client hands over a request and a message is written out for it, the
/// message has the type and exactly the payload of that request, whatever happened before.
pub proof fn law_history_writes_requests_as_they_are(
    tables: Seq<XsTable>,
    steps: Seq<XsStep>,
    i: int,
    request: XsAsyncRequest,
    sent: XsMessage,
)
    requires
        history(tables, steps),
        0 <= i < steps.len(),
        steps[i] == XsStep::Client(XsAsyncMessage::Request(request), Some(sent)),
    ensures
        sent.msg_type == request.request.msg_type,
        sent.payload@ == request.request.payload@,
{
    assert(leads(tables[i], steps[i], tables[i + 1]));
    law_request_goes_out_as_it_is(tables[i], request, tables[i + 1], Some(sent));
}

/// What goes onto the connection for a write is, behind the header, the path, one NUL byte and all
/// of the data.
pub proof fn law_write_goes_onto_the_connection_whole(
    tables: Seq<XsTable>,
    steps: Seq<XsStep>,
    i: int,
    path: &str,
    data: &str,
    request: XsMessage,
    exchange: (XsAsyncMessage, oneshot::Receiver<XsMessage>),
    sent: XsMessage,
    bytes: Vec<u8>,
)
    requires
        call_ensures(XsAsyncImpl::write_request, (path, data), request),
        call_ensures(XsAsyncImpl::request_message, (request,), exchange),
        history(tables, steps),
        0 <= i < steps.len(),
        steps[i] == XsStep::Client(exchange.0, Some(sent)),
        call_ensures(XsMessage::encode, (&sent,), Some(bytes)),
    ensures
        sent.msg_type == XsMessageType::Write,
        sent.payload@ == encode_utf8(path@) + seq![0u8] + encode_utf8(data@),
        bytes@.skip(16) == encode_utf8(path@) + seq![0u8] + encode_utf8(data@),
{
    law_write_carries_path_and_data(path, data, request);
    law_history_writes_requests_as_they_are(tables, steps, i, exchange.0->Request_0, sent);
    law_message_is_written_whole(sent, Some(bytes));
}

/// The task writes a request out as its client gave it, unless every id is in use; then it waits
/// for more.
pub proof fn law_task_writes_requests_as_they_are(
    tables: Seq<XsTable>,
    events: Seq<XsServeEvent>,
    actions: Seq<XsServeAction>,
    i: int,
    request: XsAsyncRequest,
)
    requires
        serving(tables, events, actions),
        0 <= i < events.len(),
        events[i] == XsServeEvent::FromClient(Some(XsAsyncMessage::Request(request))),
    ensures
        actions[i] is Write || actions[i] is Wait,
        actions[i] matches XsServeAction::Write(sent) ==> sent.msg_type == request.request.msg_type
            && sent.payload@ == request.request.payload@,
        actions[i] is Wait <==> forall|id: u32| #[trigger] tables[i].requests.contains_key(id),
{
    assert(serve_step(tables[i], events[i], tables[i + 1], actions[i]));
    let out = match actions[i] {
        XsServeAction::Write(sent) => Some(sent),
        _ => None,
    };
    law_request_goes_out_as_it_is(tables[i], request, tables[i + 1], out);
}

/// The payload of a message about a watch is the path, one NUL byte, the token in decimal digits
/// and one NUL byte.
proof fn lemma_watch_payload(path: Seq<char>, token: u32)
    ensures
        watch_payload(path, token) == encode_utf8(path) + seq![0u8] + encode_utf8(
            decimal(token as nat),
        ) + seq![0u8],
{
    let text = decimal(token as nat);
    law_join_by_parts(seq![path], seq![text], path, true);
    law_join_by_parts(seq![], seq![], text, true);
    assert(seq![path] + seq![text] =~= seq![path, text]);
    assert(watch_payload(path, token) =~= encode_utf8(path) + seq![0u8] + encode_utf8(text)
        + seq![0u8]);
}

/// A subscription goes out with its path, all of it, and a token that no other watch has, under an
/// id that no request in flight has. From then on there is an unconfirmed watch for that path,
/// whose events go to the client, and a request in flight whose outcome goes to the client; nothing
/// else changes. A subscription is turned down only if every id or every token is in use, and then
/// nothing changes.
pub proof fn law_subscription_goes_out_with_path_and_token(
    pre: XsTable,
    path: String,
    event_sender: flume::Sender<String>,
    result_channel: oneshot::Sender<Result<XsWatchToken, XsError>>,
    post: XsTable,
    out: Option<XsMessage>,
)
    requires
        client_step(
            pre,
            XsAsyncMessage::WatchSubscribe { path, event_sender, result_channel },
            post,
            out,
        ),
    ensures
        out matches Some(sent) ==> {
            &&& post.requests[sent.request_id] matches XsPending::Watch(token, channel)
            &&& channel == result_channel
            &&& sent.msg_type == XsMessageType::Watch
            &&& sent.payload@ == encode_utf8(path@) + seq![0u8] + encode_utf8(
                decimal(token.0 as nat),
            ) + seq![0u8]
            &&& gains(
                pre.requests,
                sent.request_id,
                XsPending::Watch(token, result_channel),
                post.requests,
            )
            &&& gains(pre.watches, token.0, post.watches[token.0], post.watches)
            &&& post.watches[token.0].path@ == path@
            &&& post.watches[token.0].event_sender == Some(event_sender)
            &&& !post.watches[token.0].confirmed
        },
        out is None ==> post.requests == pre.requests && post.watches == pre.watches,
        out is None <==> (forall|id: u32| #[trigger] pre.requests.contains_key(id)) || (forall|
            token: u32,
        | #[trigger]
            pre.watches.contains_key(token)),
{
    if let Some(sent) = out {
        let token = post.requests[sent.request_id]->Watch_0.0;
        assert(is_free(pre.watches, token));
        assert(!pre.requests.contains_key(sent.request_id));
        lemma_watch_payload(path@, token);
        lemma_keeps_others(pre.watches, token, post.watches);
    }
}

/// Two maps that agree without one key hold the same under every other key.
proof fn lemma_keeps_others<V>(pre: Map<u32, V>, key: u32, post: Map<u32, V>)
    requires
        post.remove(key) == pre.remove(key) || (post.remove(key) == pre && !pre.contains_key(key)),
    ensures
        keeps_others(pre, key, post),
{
    if !pre.contains_key(key) {
        assert(pre.remove(key) =~= pre);
    }
    assert forall|other: u32|
        #![trigger pre.contains_key(other)]
        #![trigger post.contains_key(other)]
        other != key implies (pre.contains_key(other) <==> post.contains_key(other)) && (
    pre.contains_key(other) ==> post[other] == pre[other]) by {
        assert(post.remove(key).contains_key(other) == post.contains_key(other));
        assert(pre.remove(key).contains_key(other) == pre.contains_key(other));
        if post.contains_key(other) {
            assert(post.remove(key)[other] == post[other]);
            assert(pre.remove(key)[other] == pre[other]);
        }
    }
}

/// A watch that Xenstore has accepted and nobody has given up yet is given up when its client says
/// so: its events go nowhere from then on, and a request with its path and token goes out, unless
/// every id is in use. Any other watch cannot be given up, and no watch is changed by giving up
/// another.
pub proof fn law_watch_is_given_up_once(
    pre: XsTable,
    token: u32,
    post: XsTable,
    out: Option<XsMessage>,
)
    requires
        client_step(pre, XsAsyncMessage::WatchUnsubscribe(XsWatchToken(token)), post, out),
    ensures
        ({
            let live = pre.watches.contains_key(token) && pre.watches[token].event_sender is Some
                && pre.watches[token].confirmed;
            let full = forall|id: u32| #[trigger] pre.requests.contains_key(id);
            &&& out is Some <==> live && !full
            &&& !live ==> post.watches == pre.watches
            &&& live ==> {
                &&& post.watches.contains_key(token)
                &&& post.watches[token].path@ == pre.watches[token].path@
                &&& post.watches[token].event_sender is None
                &&& post.watches[token].confirmed
            }
        }),
        out is None ==> post.requests == pre.requests,
        out matches Some(sent) ==> {
            &&& sent.msg_type == XsMessageType::Unwatch
            &&& sent.payload@ == encode_utf8(pre.watches[token].path@) + seq![0u8] + encode_utf8(
                decimal(token as nat),
            ) + seq![0u8]
            &&& gains(
                pre.requests,
                sent.request_id,
                XsPending::Unwatch(XsWatchToken(token)),
                post.requests,
            )
        },
        keeps_others(pre.watches, token, post.watches),
{
    lemma_watch_payload(pre.watches[token].path@, token);
    if let Some(sent) = out {
        assert(!pre.requests.contains_key(sent.request_id));
    }
    lemma_keeps_others(pre.watches, token, post.watches);
}

/// True if the texts of an event name this path and the watch with this token: the first is the
/// path, and the second is the token in decimal digits.
pub open spec fn names(texts: Seq<Seq<char>>, path: Seq<char>, token: u32) -> bool {
    &&& texts.len() >= 2
    &&& texts[0] == path
    &&& texts[1].len() > 0
    &&& forall|i: int| 0 <= i < texts[1].len() ==> '0' <= #[trigger] texts[1][i] <= '9'
    &&& decimal_value(texts[1]) == token
}

/// An event is handed, with its path as it is, to the watch that it names, exactly if somebody
/// wants the events of that watch. It changes nothing that is kept track of.
pub proof fn law_event_goes_to_the_watch_it_names(
    pre: XsTable,
    event: XsMessage,
    post: XsTable,
    delivery: XsDelivery,
)
    requires
        event.msg_type == XsMessageType::WatchEvent,
        server_step(pre, event, post, delivery),
    ensures
        post.requests == pre.requests,
        post.watches == pre.watches,
        delivery is Event || delivery is Nothing,
        delivery matches XsDelivery::Event(token, path) ==> {
            &&& pre.watches.contains_key(token.0)
            &&& pre.watches[token.0].event_sender is Some
            &&& exists|texts: Seq<Seq<char>>| #[trigger]
                holds(event.payload@, texts) && names(texts, path@, token.0)
        },
        forall|texts: Seq<Seq<char>>, path: Seq<char>, token: u32|
            #![trigger holds(event.payload@, texts), names(texts, path, token)]
            holds(event.payload@, texts) && names(texts, path, token) && pre.watches.contains_key(
                token,
            ) && pre.watches[token].event_sender is Some ==> (delivery matches XsDelivery::Event(
                t,
                p,
            ) && t.0 == token && p@ == path),
{
    lemma_reads_what_it_holds(event.payload@);
    if let XsDelivery::Event(token, path) = delivery {
        let texts = decode_all(split_nul(event.payload@));
        assert(holds(event.payload@, texts));
        assert(is_decimal(texts[1]));
        assert(names(texts, path@, token.0));
    }
    assert forall|texts: Seq<Seq<char>>, path: Seq<char>, token: u32|
        #![trigger holds(event.payload@, texts), names(texts, path, token)]
        holds(event.payload@, texts) && names(texts, path, token) && pre.watches.contains_key(token)
            && pre.watches[token].event_sender is Some implies (delivery matches XsDelivery::Event(
        t,
        p,
    ) && t.0 == token && p@ == path) by {
        assert(is_decimal(texts[1]));
    }
}

/// A response is handed, as it is, to the client that waits under its id, and to nobody else, and
/// its request is in flight no more; what else is in flight stays so. A response that nobody waits
/// for changes nothing and goes nowhere.
pub proof fn law_response_goes_to_who_waits(
    pre: XsTable,
    response: XsMessage,
    post: XsTable,
    delivery: XsDelivery,
)
    requires
        response.msg_type != XsMessageType::WatchEvent,
        server_step(pre, response, post, delivery),
    ensures
        !post.requests.contains_key(response.request_id),
        keeps_others(pre.requests, response.request_id, post.requests),
        !pre.requests.contains_key(response.request_id) ==> delivery is Nothing && post.watches
            == pre.watches,
        pre.requests.contains_key(response.request_id) ==> match pre.requests[response.request_id] {
            XsPending::Request(sender) => {
                &&& delivery == XsDelivery::Response(sender, response)
                &&& post.watches == pre.watches
            },
            XsPending::Watch(_, sender) => delivery matches XsDelivery::Subscription(to, _) && to
                == sender,
            XsPending::Unwatch(_) => delivery is Nothing,
        },
{
}

/// A subscription is confirmed exactly if the response is about a watch: its client is told the
/// token, and its watch stays, with its path and where its events go, and is confirmed. For every
/// other response the client is told why, and the watch is gone. No other watch changes.
pub proof fn law_subscription_ends_as_the_response_says(
    pre: XsTable,
    response: XsMessage,
    token: XsWatchToken,
    result_channel: oneshot::Sender<Result<XsWatchToken, XsError>>,
    post: XsTable,
    delivery: XsDelivery,
)
    requires
        response.msg_type != XsMessageType::WatchEvent,
        server_step(pre, response, post, delivery),
        pre.requests.contains_key(response.request_id),
        pre.requests[response.request_id] == XsPending::Watch(token, result_channel),
    ensures
        delivery matches XsDelivery::Subscription(to, outcome) && to == result_channel
            && match outcome {
            Ok(told) => response.msg_type == XsMessageType::Watch && told == token,
            Err(e) => response.msg_type != XsMessageType::Watch && tells(
                XsReply::Response(response),
                e,
            ),
        },
        response.msg_type == XsMessageType::Watch && pre.watches.contains_key(token.0) ==> {
            &&& post.watches.contains_key(token.0)
            &&& post.watches[token.0].path@ == pre.watches[token.0].path@
            &&& post.watches[token.0].event_sender == pre.watches[token.0].event_sender
            &&& post.watches[token.0].confirmed
        },
        response.msg_type != XsMessageType::Watch || !pre.watches.contains_key(token.0)
            ==> !post.watches.contains_key(token.0),
        keeps_others(pre.watches, token.0, post.watches),
{
    if response.msg_type == XsMessageType::Watch {
        if pre.watches.contains_key(token.0) {
            lemma_keeps_others(pre.watches, token.0, post.watches);
        }
    } else {
        let outcome = delivery->Subscription_1;
        law_unanswered_request_tells_why(
            XsMessageType::Watch,
            XsReply::Response(response),
            outcome->Err_0,
        );
    }
}

/// Once the response to the request that ends a watch is here, whatever it says, the watch is gone
/// and its token is free; no other watch changes.
pub proof fn law_ended_watch_is_gone(
    pre: XsTable,
    response: XsMessage,
    token: XsWatchToken,
    post: XsTable,
    delivery: XsDelivery,
)
    requires
        response.msg_type != XsMessageType::WatchEvent,
        server_step(pre, response, post, delivery),
        pre.requests.contains_key(response.request_id),
        pre.requests[response.request_id] == XsPending::Unwatch(token),
    ensures
        !post.watches.contains_key(token.0),
        keeps_others(pre.watches, token.0, post.watches),
{
}

/// The events of a watch go where its client said, as long as that client wants them, and nowhere
/// after that.
pub proof fn law_events_go_where_the_watch_says(
    state: XsAsyncState,
    token: XsWatchToken,
    sender: Option<&flume::Sender<String>>,
)
    requires
        call_ensures(XsAsyncState::event_sender, (&state, token), sender),
    ensures
        !state@.watches.contains_key(token.0) ==> sender is None,
        state@.watches.contains_key(token.0) ==> match state@.watches[token.0].event_sender {
            Some(s) => sender == Some(&s),
            None => sender is None,
        },
{
}

/// A watch whose client is gone before it is told of it is given up, just as if the client had done
/// so: its events go nowhere, and a request with its path and token goes out unless every id is in
/// use. Where there is no such watch, the task waits for more.
pub proof fn law_watch_nobody_knows_of_is_given_up(
    pre: XsTable,
    token: XsWatchToken,
    post: XsTable,
    action: XsServeAction,
)
    requires
        serve_step(pre, XsServeEvent::Undelivered(Ok(token)), post, action),
    ensures
        action is Write || action is Wait,
        ({
            let live = pre.watches.contains_key(token.0) && pre.watches[token.0].event_sender
                is Some && pre.watches[token.0].confirmed;
            let full = forall|id: u32| #[trigger] pre.requests.contains_key(id);
            &&& action is Write <==> live && !full
            &&& live ==> post.watches.contains_key(token.0)
                && post.watches[token.0].event_sender is None
        }),
        action matches XsServeAction::Write(sent) ==> {
            &&& sent.msg_type == XsMessageType::Unwatch
            &&& sent.payload@ == encode_utf8(pre.watches[token.0].path@) + seq![0u8] + encode_utf8(
                decimal(token.0 as nat),
            ) + seq![0u8]
        },
        keeps_others(pre.watches, token.0, post.watches),
{
    let out = match action {
        XsServeAction::Write(sent) => Some(sent),
        _ => None,
    };
    law_watch_is_given_up_once(pre, token.0, post, out);
}

/// Every message that is taken from a client or from the connection is one step of a history, so
/// what holds of histories holds of what is kept track of.
pub proof fn law_taking_a_message_is_a_step(
    for_client: &mut XsAsyncState,
    message: XsAsyncMessage,
    out: Option<XsMessage>,
    for_server: &mut XsAsyncState,
    response: XsMessage,
    delivery: XsDelivery,
)
    requires
        call_ensures(XsAsyncState::on_client, (for_client, message), out),
        call_ensures(XsAsyncState::on_server, (for_server, response), delivery),
    ensures
        leads(old(for_client)@, XsStep::Client(message, out), final(for_client)@),
        leads(old(for_server)@, XsStep::Server(response, delivery), final(for_server)@),
{
}

/// What is decided after any event is one step of a run of the task, and the decision is to stop
/// exactly if the connection is gone, no client is left or a request could not be written out,
/// whatever is kept track of.
pub proof fn law_deciding_is_a_step(
    state: &mut XsAsyncState,
    event: XsServeEvent,
    action: XsServeAction,
)
    requires
        call_ensures(serve, (state, event), action),
    ensures
        serving(seq![old(state)@, final(state)@], seq![event], seq![action]),
        action is Stop <==> event == XsServeEvent::FromServer(None) || event
            == XsServeEvent::FromClient(None) || event == XsServeEvent::Written(false),
{
}

/// Whatever is kept track of, a request that a client hands over is written out with its own type
/// and exactly its own payload, or not at all, and that only if every id is in use.
pub proof fn law_taken_request_is_written_out_as_it_is(
    state: &mut XsAsyncState,
    request: XsAsyncRequest,
    out: Option<XsMessage>,
)
    requires
        call_ensures(XsAsyncState::on_client, (state, XsAsyncMessage::Request(request)), out),
    ensures
        out matches Some(sent) ==> sent.msg_type == request.request.msg_type && sent.payload@
            == request.request.payload@,
        out is None <==> forall|id: u32| #[trigger] old(state)@.requests.contains_key(id),
{
    law_request_goes_out_as_it_is(old(state)@, request, final(state)@, out);
}

} // verus!
