//! What the task that serves a connection keeps track of.
//!
//! Every request goes out under an id that no other request in flight has, so the response,
//! which repeats the id, finds its way back to the client that waits for it. Every watch has a
//! token that no other watch has, so an event, which repeats the token, finds its watch.

use futures::channel::oneshot;
use std::collections::HashMap;
use vstd::prelude::*;

use crate::decimal::{decimal, decimal_value, is_decimal, parse_decimal, push_decimal};
use crate::error::XsError;
use crate::interface::{XsAsyncMessage, XsAsyncRequest, XsWatchToken};
use crate::permission::chars_of;
use crate::text::{all_utf8, decode_all, join_nul, split_nul, str_views, views};
use crate::wire::{XsMessage, XsMessageType};
use crate::xs_async::{failure, XsAsyncImpl, XsReply};

verus! {

broadcast use vstd::std_specs::hash::group_hash_axioms;

/// Who waits for the response to a request in flight.
#[derive(Debug)]
pub enum XsPending {
    /// A client, for the response itself.
    Request(oneshot::Sender<XsMessage>),
    /// A client, for the outcome of its subscription.
    Watch(XsWatchToken, oneshot::Sender<Result<XsWatchToken, XsError>>),
    /// Nobody: once the response is here, the token can be used again.
    Unwatch(XsWatchToken),
}

/// One watch of the connection.
#[derive(Debug)]
pub struct XsWatch {
    /// The path that is watched.
    pub path: String,
    /// Where the events go, as long as a client wants them.
    pub event_sender: Option<flume::Sender<String>>,
    /// Whether Xenstore has accepted the watch.
    pub confirmed: bool,
}

/// What the task that serves a connection keeps track of.
#[derive(Debug)]
pub struct XsAsyncState {
    requests: HashMap<u32, XsPending>,
    watches: HashMap<u32, XsWatch>,
}

/// The requests in flight by their id, and the watches by their token.
#[verifier::ext_equal]
pub struct XsTable {
    pub requests: Map<u32, XsPending>,
    pub watches: Map<u32, XsWatch>,
}

/// What is to be handed on after a message came in from the connection.
#[derive(Debug)]
pub enum XsDelivery {
    /// The response, to the client that waits for it.
    Response(oneshot::Sender<XsMessage>, XsMessage),
    /// The outcome of a subscription, to the client that waits for it.
    Subscription(
        oneshot::Sender<Result<XsWatchToken, XsError>>,
        Result<XsWatchToken, XsError>,
    ),
    /// The path of an event, to the watch with this token.
    Event(XsWatchToken, String),
    /// Nothing.
    Nothing,
}

impl View for XsAsyncState {
    type V = XsTable;

    closed spec fn view(&self) -> XsTable {
        XsTable { requests: self.requests@, watches: self.watches@ }
    }
}

/// True if `key` is in no use yet.
pub open spec fn is_free<V>(used: Map<u32, V>, key: u32) -> bool {
    !used.contains_key(key)
}

/// True if there is no key left.
pub open spec fn exhausted<V>(used: Map<u32, V>) -> bool {
    forall|key: u32| #[trigger] used.contains_key(key)
}

/// The payload of a message about a watch: its path, then its token.
pub open spec fn watch_payload(path: Seq<char>, token: u32) -> Seq<u8> {
    join_nul(seq![path, decimal(token as nat)], true)
}

/// The path and the token that an event names, if it names both.
pub open spec fn event_of(payload: Seq<u8>) -> Option<(Seq<char>, u32)> {
    let texts = decode_all(split_nul(payload));
    if all_utf8(split_nul(payload)) && texts.len() >= 2 && is_decimal(texts[1]) && decimal_value(
        texts[1],
    ) <= u32::MAX {
        Some((texts[0], decimal_value(texts[1]) as u32))
    } else {
        None
    }
}

/// True if somebody wants the events of the watch with this token.
pub open spec fn is_watched(watches: Map<u32, XsWatch>, token: u32) -> bool {
    watches.contains_key(token) && watches[token].event_sender is Some
}

/// True if the watch with this token can be given up: Xenstore has accepted it, and nobody has
/// given it up yet.
pub open spec fn is_live(watches: Map<u32, XsWatch>, token: u32) -> bool {
    is_watched(watches, token) && watches[token].confirmed
}

/// True if the watch is for the path, its events go to the sender, and it is confirmed or not.
pub open spec fn watch_is(
    watch: XsWatch,
    path: Seq<char>,
    event_sender: Option<flume::Sender<String>>,
    confirmed: bool,
) -> bool {
    watch.path@ == path && watch.event_sender == event_sender && watch.confirmed == confirmed
}

/// True if all that changed from one to the other is that the watch with this token, if there is
/// one, is confirmed.
pub open spec fn confirms(
    pre: Map<u32, XsWatch>,
    token: u32,
    post: Map<u32, XsWatch>,
) -> bool {
    if pre.contains_key(token) {
        &&& post.dom() == pre.dom()
        &&& post.remove(token) == pre.remove(token)
        &&& watch_is(post[token], pre[token].path@, pre[token].event_sender, true)
    } else {
        post == pre
    }
}

/// How a message from a client changes what is kept track of, and what is written out for it.
pub open spec fn client_step(
    pre: XsTable,
    message: XsAsyncMessage,
    post: XsTable,
    out: Option<XsMessage>,
) -> bool {
    match message {
        XsAsyncMessage::Request(XsAsyncRequest { request, response_sender }) => match out {
            Some(m) => {
                &&& m.msg_type == request.msg_type
                &&& m.payload == request.payload
                &&& is_free(pre.requests, m.request_id)
                &&& post.requests == pre.requests.insert(
                    m.request_id,
                    XsPending::Request(response_sender),
                )
                &&& post.watches == pre.watches
            },
            None => exhausted(pre.requests) && post == pre,
        },
        XsAsyncMessage::WatchSubscribe { path, event_sender, result_channel } => match out {
            Some(m) => exists|token: u32|
                {
                    &&& #[trigger] is_free(pre.watches, token)
                    &&& is_free(pre.requests, m.request_id)
                    &&& m.msg_type == XsMessageType::Watch
                    &&& m.payload@ == watch_payload(path@, token)
                    &&& post.requests == pre.requests.insert(
                        m.request_id,
                        XsPending::Watch(XsWatchToken(token), result_channel),
                    )
                    &&& post.watches.dom() == pre.watches.dom().insert(token)
                    &&& post.watches.remove(token) == pre.watches
                    &&& watch_is(post.watches[token], path@, Some(event_sender), false)
                },
            None => (exhausted(pre.requests) || exhausted(pre.watches)) && post == pre,
        },
        XsAsyncMessage::WatchUnsubscribe(XsWatchToken(token)) => {
            if is_live(pre.watches, token) {
                &&& post.watches.dom() == pre.watches.dom()
                &&& post.watches.remove(token) == pre.watches.remove(token)
                &&& watch_is(post.watches[token], pre.watches[token].path@, None, true)
                &&& match out {
                    Some(m) => {
                        &&& is_free(pre.requests, m.request_id)
                        &&& m.msg_type == XsMessageType::Unwatch
                        &&& m.payload@ == watch_payload(pre.watches[token].path@, token)
                        &&& post.requests == pre.requests.insert(
                            m.request_id,
                            XsPending::Unwatch(XsWatchToken(token)),
                        )
                    },
                    None => exhausted(pre.requests) && post.requests == pre.requests,
                }
            } else {
                out is None && post == pre
            }
        },
    }
}

/// How a message from the connection changes what is kept track of, and what is handed on.
pub open spec fn server_step(
    pre: XsTable,
    message: XsMessage,
    post: XsTable,
    delivery: XsDelivery,
) -> bool {
    if message.msg_type == XsMessageType::WatchEvent {
        &&& post == pre
        &&& match event_of(message.payload@) {
            Some((path, token)) if is_watched(pre.watches, token) => {
                &&& delivery matches XsDelivery::Event(t, p)
                &&& t == XsWatchToken(token)
                &&& p@ == path
            },
            _ => delivery is Nothing,
        }
    } else if !pre.requests.contains_key(message.request_id) {
        post == pre && delivery is Nothing
    } else {
        &&& post.requests == pre.requests.remove(message.request_id)
        &&& match pre.requests[message.request_id] {
            XsPending::Request(response_sender) => {
                &&& delivery == XsDelivery::Response(response_sender, message)
                &&& post.watches == pre.watches
            },
            XsPending::Watch(token, result_channel) => {
                &&& delivery matches XsDelivery::Subscription(channel, outcome)
                &&& channel == result_channel
                &&& if message.msg_type == XsMessageType::Watch {
                    &&& outcome == Ok::<XsWatchToken, XsError>(token)
                    &&& confirms(pre.watches, token.0, post.watches)
                } else {
                    &&& outcome matches Err(e)
                    &&& failure(XsMessageType::Watch, XsReply::Response(message), e)
                    &&& post.watches == pre.watches.remove(token.0)
                }
            },
            XsPending::Unwatch(token) => {
                &&& delivery is Nothing
                &&& post.watches == pre.watches.remove(token.0)
            },
        }
    }
}

impl XsPending {
    /// The watch that the request is about, if it is about one.
    pub open spec fn token(self) -> Option<u32> {
        match self {
            XsPending::Request(_) => None,
            XsPending::Watch(token, _) => Some(token.0),
            XsPending::Unwatch(token) => Some(token.0),
        }
    }
}

impl XsTable {
    /// True if a request about a watch finds the watch in the right state: there, not confirmed
    /// while the subscription is in flight, confirmed and given up while its end is.
    pub open spec fn agrees(self, id: u32) -> bool {
        match self.requests[id] {
            XsPending::Request(_) => true,
            XsPending::Watch(token, _) => {
                &&& self.watches.contains_key(token.0)
                &&& !self.watches[token.0].confirmed
            },
            XsPending::Unwatch(token) => {
                &&& self.watches.contains_key(token.0)
                &&& self.watches[token.0].confirmed
                &&& self.watches[token.0].event_sender is None
            },
        }
    }

    /// True if every request about a watch agrees with the watch, and no two requests in flight
    /// are about one watch.
    pub open spec fn wf(self) -> bool {
        &&& forall|id: u32| #[trigger] self.requests.contains_key(id) ==> self.agrees(id)
        &&& forall|a: u32, b: u32|
            #![trigger self.requests[a], self.requests[b]]
            self.requests.contains_key(a) && self.requests.contains_key(b) && a != b
                && self.requests[a].token() is Some ==> self.requests[a].token()
                != self.requests[b].token()
    }
}

/// Returns the least key that is in no use, `None` where every key is in use.
fn free_key<V>(used: &HashMap<u32, V>) -> (key: Option<u32>)
    ensures
        key matches Some(k) ==> is_free(used@, k),
        key matches Some(k) ==> forall|j: u32| j < k ==> #[trigger] used@.contains_key(j),
        key is None ==> exhausted(used@),
{
    let mut key: u32 = 0;
    while used.contains_key(&key)
        invariant
            forall|k: u32| k < key ==> #[trigger] used@.contains_key(k),
        decreases u32::MAX - key,
    {
        if key == u32::MAX {
            return None;
        }
        key = key + 1;
    }
    Some(key)
}

/// Builds a message about a watch.
fn watch_message(msg_type: XsMessageType, request_id: u32, path: &str, token: u32) -> (message:
    XsMessage)
    ensures
        message.msg_type == msg_type,
        message.request_id == request_id,
        message.payload@ == watch_payload(path@, token),
{
    let mut token_text: String = String::new();
    push_decimal(&mut token_text, token);
    let strings: [&str; 2] = [path, token_text.as_str()];
    assert(token_text@ =~= decimal(token as nat));
    assert(str_views(strings@) =~= seq![path@, decimal(token as nat)]);
    XsMessage::from_string_slice(msg_type, request_id, &strings, true)
}

/// Reads the path and the token that an event names.
fn read_event(message: &XsMessage) -> (event: Option<(String, u32)>)
    ensures
        event matches Some(e) ==> event_of(message.payload@) == Some((e.0@, e.1)),
        event is None ==> event_of(message.payload@) is None,
{
    match message.parse_payload_list() {
        Ok(mut list) => {
            let ghost texts = views(list@);
            if list.len() < 2 {
                return None;
            }
            let token_text = chars_of(list[1].as_str());
            assert(texts[1] == list@[1]@);
            assert(token_text@.skip(0) =~= token_text@);
            match parse_decimal(&token_text, 0) {
                Some(token) => {
                    assert(texts[0] == list@[0]@);
                    Some((list.swap_remove(0), token))
                },
                None => None,
            }
        },
        Err(_) => None,
    }
}

impl Default for XsAsyncState {
    /// Keeps track of nothing yet.
    fn default() -> (state: Self)
        ensures
            state@ == (XsTable { requests: Map::empty(), watches: Map::empty() }),
            state@.wf(),
    {
        XsAsyncState { requests: HashMap::new(), watches: HashMap::new() }
    }
}

impl XsAsyncState {
    /// Takes a message from a client, and returns the request to write out for it.
    ///
    /// Where there is none although the client asked for one, its channel is dropped.
    pub fn on_client(&mut self, message: XsAsyncMessage) -> (out: Option<XsMessage>)
        ensures
            client_step(old(self)@, message, final(self)@, out),
    {
        match message {
            XsAsyncMessage::Request(XsAsyncRequest { request, response_sender }) => {
                match free_key(&self.requests) {
                    Some(id) => {
                        self.requests.insert(id, XsPending::Request(response_sender));
                        Some(
                            XsMessage {
                                msg_type: request.msg_type,
                                request_id: id,
                                payload: request.payload,
                            },
                        )
                    },
                    None => None,
                }
            },
            XsAsyncMessage::WatchSubscribe { path, event_sender, result_channel } => {
                let id = match free_key(&self.requests) {
                    Some(id) => id,
                    None => {
                        return None;
                    },
                };
                let token = match free_key(&self.watches) {
                    Some(token) => token,
                    None => {
                        return None;
                    },
                };
                let out = watch_message(XsMessageType::Watch, id, path.as_str(), token);
                self.requests.insert(id, XsPending::Watch(XsWatchToken(token), result_channel));
                let watch = XsWatch { path, event_sender: Some(event_sender), confirmed: false };
                self.watches.insert(token, watch);
                proof {
                    assert(is_free(old(self)@.watches, token));
                    assert(self@.watches.remove(token) =~= old(self)@.watches);
                }
                Some(out)
            },
            XsAsyncMessage::WatchUnsubscribe(XsWatchToken(token)) => {
                if !self.is_confirmed(token) {
                    return None;
                }
                let path = match self.watches.remove(&token) {
                    Some(watch) => watch.path,
                    None => {
                        return None;
                    },
                };
                let out = match free_key(&self.requests) {
                    Some(id) => {
                        self.requests.insert(id, XsPending::Unwatch(XsWatchToken(token)));
                        Some(watch_message(XsMessageType::Unwatch, id, path.as_str(), token))
                    },
                    None => None,
                };
                self.watches.insert(token, XsWatch { path, event_sender: None, confirmed: true });
                proof {
                    assert(self@.watches.dom() =~= old(self)@.watches.dom());
                    assert(self@.watches.remove(token) =~= old(self)@.watches.remove(token));
                }
                out
            },
        }
    }

    /// Takes the outcome of a subscription whose client is gone, and returns the request to write
    /// out: a watch that nobody can give up any more is given up here.
    pub fn on_undelivered(&mut self, outcome: Result<XsWatchToken, XsError>) -> (out: Option<
        XsMessage,
    >)
        ensures
            match outcome {
                Ok(token) => client_step(
                    old(self)@,
                    XsAsyncMessage::WatchUnsubscribe(token),
                    final(self)@,
                    out,
                ),
                Err(_) => out is None && final(self)@ == old(self)@,
            },
    {
        match outcome {
            Ok(token) => self.on_client(XsAsyncMessage::WatchUnsubscribe(token)),
            Err(_) => None,
        }
    }

    /// Returns whether somebody wants the events of the watch with this token.
    fn is_active(&self, token: u32) -> (active: bool)
        ensures
            active == is_watched(self@.watches, token),
    {
        match self.watches.get(&token) {
            Some(watch) => watch.event_sender.is_some(),
            None => false,
        }
    }

    /// Returns whether the watch with this token can be given up.
    fn is_confirmed(&self, token: u32) -> (confirmed: bool)
        ensures
            confirmed == is_live(self@.watches, token),
    {
        match self.watches.get(&token) {
            Some(watch) => watch.event_sender.is_some() && watch.confirmed,
            None => false,
        }
    }

    /// Notes that Xenstore has accepted a watch.
    fn confirm(&mut self, token: u32)
        ensures
            final(self)@.requests == old(self)@.requests,
            confirms(old(self)@.watches, token, final(self)@.watches),
    {
        match self.watches.remove(&token) {
            Some(watch) => {
                self.watches.insert(
                    token,
                    XsWatch {
                        path: watch.path,
                        event_sender: watch.event_sender,
                        confirmed: true,
                    },
                );
                assert(self@.watches.dom() =~= old(self)@.watches.dom());
                assert(self@.watches.remove(token) =~= old(self)@.watches.remove(token));
            },
            None => {
                assert(self@.watches =~= old(self)@.watches);
            },
        }
    }

    /// Returns where the events of a watch go, as long as a client wants them.
    pub fn event_sender(&self, token: XsWatchToken) -> (sender: Option<&flume::Sender<String>>)
        ensures
            sender is Some <==> is_watched(self@.watches, token.0),
            sender matches Some(s) ==> self@.watches[token.0].event_sender == Some(*s),
    {
        match self.watches.get(&token.0) {
            Some(watch) => match &watch.event_sender {
                Some(sender) => Some(sender),
                None => None,
            },
            None => None,
        }
    }

    /// Takes a message from the connection, and returns what is to be handed on.
    pub fn on_server(&mut self, message: XsMessage) -> (delivery: XsDelivery)
        ensures
            server_step(old(self)@, message, final(self)@, delivery),
    {
        if message.msg_type == XsMessageType::WatchEvent {
            return match read_event(&message) {
                Some((path, token)) => if self.is_active(token) {
                    XsDelivery::Event(XsWatchToken(token), path)
                } else {
                    XsDelivery::Nothing
                },
                None => XsDelivery::Nothing,
            };
        }
        match self.requests.remove(&message.request_id) {
            None => {
                assert(self@ =~= old(self)@);
                XsDelivery::Nothing
            },
            Some(XsPending::Request(response_sender)) => XsDelivery::Response(
                response_sender,
                message,
            ),
            Some(XsPending::Watch(token, result_channel)) => {
                let reply = XsReply::Response(message);
                match XsAsyncImpl::transmit_request(XsMessageType::Watch, reply) {
                    Ok(_) => {
                        self.confirm(token.0);
                        XsDelivery::Subscription(result_channel, Ok(token))
                    },
                    Err(e) => {
                        self.watches.remove(&token.0);
                        XsDelivery::Subscription(result_channel, Err(e))
                    },
                }
            },
            Some(XsPending::Unwatch(token)) => {
                self.watches.remove(&token.0);
                XsDelivery::Nothing
            },
        }
    }
}

} // verus!
