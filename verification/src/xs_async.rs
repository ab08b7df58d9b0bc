//! The client side: what each operation sends, and what its reply means.
//!
//! An operation hands one request to the task that serves the connection and waits for one
//! response. The waiting is left to the caller, who reports back how far the exchange got.

use futures::channel::oneshot;
use vstd::prelude::*;
use vstd::utf8::{decode_utf8, valid_utf8};

use crate::channel::{
    bounded_events, client_channel, clone_client_sender, event_channel, oneshot_response,
    oneshot_subscription, response_channel, subscription_channel,
};
use crate::error::XsError;
use crate::interface::{XsAsyncMessage, XsAsyncRequest, XsWatchToken};
use crate::permission::{text_permission, XsPermission};
use crate::text::{all_utf8, decode_all, first_piece, join_nul, split_nul, str_views, views};
use crate::wire::{error_of, string_payload, XsMessage, XsMessageType};

verus! {

/// How many events a watch holds back before the sender has to wait.
pub const EVENT_QUEUE_LEN: usize = 8;

/// How far the exchange of one request for one response got.
#[derive(Debug)]
pub enum XsReply {
    /// The request could not be handed over.
    NotSent,
    /// The request was handed over, and the exchange dropped without a response.
    NoResponse,
    /// This came back.
    Response(XsMessage),
}

impl XsReply {
    /// Decides whether an exchange is over once its request was to be handed over: it is exactly
    /// if that failed.
    pub fn handed_over(sent: bool) -> (reply: Option<XsReply>)
        ensures
            sent ==> reply is None,
            !sent ==> reply == Some(XsReply::NotSent),
    {
        if sent {
            None
        } else {
            Some(XsReply::NotSent)
        }
    }

    /// Decides what arrived for a request that was handed over.
    pub fn received(response: Result<XsMessage, oneshot::Canceled>) -> (reply: XsReply)
        ensures
            response matches Ok(r) ==> reply == XsReply::Response(r),
            response is Err ==> reply is NoResponse,
    {
        match response {
            Ok(response) => XsReply::Response(response),
            Err(_) => XsReply::NoResponse,
        }
    }
}

/// How far the subscription to a path got.
#[derive(Debug)]
pub enum XsWatchReply {
    /// The subscription could not be handed over.
    NotSent,
    /// The subscription was handed over, and dropped without an answer.
    NoResponse,
    /// This came back.
    Answer(Result<XsWatchToken, XsError>),
}

impl XsWatchReply {
    /// Decides whether a subscription is over once it was to be handed over: it is exactly if
    /// that failed.
    pub fn handed_over(sent: bool) -> (reply: Option<XsWatchReply>)
        ensures
            sent ==> reply is None,
            !sent ==> reply == Some(XsWatchReply::NotSent),
    {
        if sent {
            None
        } else {
            Some(XsWatchReply::NotSent)
        }
    }

    /// Decides what arrived for a subscription that was handed over.
    pub fn received(
        answer: Result<Result<XsWatchToken, XsError>, oneshot::Canceled>,
    ) -> (reply: XsWatchReply)
        ensures
            answer matches Ok(a) ==> reply == XsWatchReply::Answer(a),
            answer is Err ==> reply is NoResponse,
    {
        match answer {
            Ok(answer) => XsWatchReply::Answer(answer),
            Err(_) => XsWatchReply::NoResponse,
        }
    }
}

/// The payload of the response, where there is one and it is of the type of the request.
pub open spec fn answer(req_msg_type: XsMessageType, reply: XsReply) -> Option<Seq<u8>> {
    match reply {
        XsReply::Response(response) if response.msg_type == req_msg_type => Some(
            response.payload@,
        ),
        _ => None,
    }
}

/// True if `error` is what becomes of a request that was not answered by a response of its type.
pub open spec fn failure(req_msg_type: XsMessageType, reply: XsReply, error: XsError) -> bool {
    match reply {
        XsReply::NotSent => error is NotSent,
        XsReply::NoResponse => error is NoResponse,
        XsReply::Response(response) => {
            &&& response.msg_type != req_msg_type
            &&& if response.msg_type == XsMessageType::Error {
                error_of(response.payload@, error)
            } else {
                error == XsError::UnrelatedResponse(response.msg_type)
            }
        },
    }
}

/// True if `error` is what becomes of a subscription that did not lead to a watch.
pub open spec fn watch_failure(reply: XsWatchReply, error: XsError) -> bool {
    match reply {
        XsWatchReply::NotSent => error is NotSent,
        XsWatchReply::NoResponse => error is NoResponse,
        XsWatchReply::Answer(Err(e)) => error == e,
        XsWatchReply::Answer(Ok(_)) => false,
    }
}

/// What a watch yields, given what arrived for it.
pub open spec fn yielded(received: Result<String, flume::RecvError>) -> Option<String> {
    match received {
        Ok(path) => Some(path),
        Err(_) => None,
    }
}

/// True if `result` is what becomes of a request whose response carries no data.
pub open spec fn acknowledged(
    req_msg_type: XsMessageType,
    reply: XsReply,
    result: Result<(), XsError>,
) -> bool {
    match answer(req_msg_type, reply) {
        Some(_) => result is Ok,
        None => result matches Err(e) && failure(req_msg_type, reply, e),
    }
}

/// The texts of the permissions.
pub open spec fn permission_texts(perms: Seq<XsPermission>) -> Seq<Seq<char>> {
    perms.map_values(|p: XsPermission| p.spec_text())
}

/// True if the permissions are what the texts stand for, one for one.
pub open spec fn stand_for(texts: Seq<Seq<char>>, perms: Seq<XsPermission>) -> bool {
    &&& texts.len() == perms.len()
    &&& forall|i: int|
        0 <= i < texts.len() ==> text_permission(#[trigger] texts[i]) == Some(perms[i])
}

/// True if the text at `i` stands for no permission, and every text before it stands for one.
pub open spec fn first_invalid(texts: Seq<Seq<char>>, i: int) -> bool {
    &&& 0 <= i < texts.len()
    &&& text_permission(texts[i]) is None
    &&& forall|j: int| 0 <= j < i ==> text_permission(#[trigger] texts[j]) is Some
}

/// True if `text` is the first of the texts that stands for no permission.
pub open spec fn is_first_invalid(texts: Seq<Seq<char>>, text: Seq<char>) -> bool {
    exists|i: int| #[trigger] first_invalid(texts, i) && text == texts[i]
}

/// A Xenstore client.
///
/// Its clones can be used concurrently by several tasks.
#[derive(Debug)]
pub struct XsAsyncImpl(flume::Sender<XsAsyncMessage>);

impl Clone for XsAsyncImpl {
    /// Returns a client that reaches the same task.
    fn clone(&self) -> (client: Self)
        ensures
            forall|receiver: flume::Receiver<XsAsyncMessage>, capacity: Option<usize>|
                #[trigger] client_channel(client.spec_sender(), receiver, capacity)
                    == client_channel(self.spec_sender(), receiver, capacity),
    {
        XsAsyncImpl(clone_client_sender(&self.0))
    }
}

impl XsAsyncImpl {
    /// Where this client puts its messages.
    pub closed spec fn spec_sender(&self) -> flume::Sender<XsAsyncMessage> {
        self.0
    }

    /// Makes a client of the task that takes messages from the other end of the channel.
    pub fn new(tx: flume::Sender<XsAsyncMessage>) -> (client: Result<Self, XsError>)
        ensures
            client matches Ok(c) && c.spec_sender() == tx,
    {
        Ok(XsAsyncImpl(tx))
    }

    /// Returns where this client puts its messages.
    pub fn sender(&self) -> (sender: &flume::Sender<XsAsyncMessage>)
        ensures
            *sender == self.spec_sender(),
    {
        &self.0
    }

    /// Wraps a request up for the task that serves the connection; the response arrives at the
    /// receiver.
    pub fn request_message(request: XsMessage) -> (exchange: (
        XsAsyncMessage,
        oneshot::Receiver<XsMessage>,
    ))
        ensures
            exchange.0 matches XsAsyncMessage::Request(r) && r.request == request
                && response_channel(r.response_sender, exchange.1),
    {
        let (response_sender, response_receiver) = oneshot_response();
        (XsAsyncMessage::Request(XsAsyncRequest { request, response_sender }), response_receiver)
    }

    /// Decides what becomes of a request of the given type: its response must be of the same
    /// type.
    pub fn transmit_request(req_msg_type: XsMessageType, reply: XsReply) -> (response: Result<
        XsMessage,
        XsError,
    >)
        ensures
            response is Ok <==> answer(req_msg_type, reply) is Some,
            response matches Ok(r) ==> reply == XsReply::Response(r),
            response matches Err(e) ==> failure(req_msg_type, reply, e),
    {
        match reply {
            XsReply::NotSent => Err(XsError::NotSent),
            XsReply::NoResponse => Err(XsError::NoResponse),
            XsReply::Response(response) => {
                if response.msg_type == req_msg_type {
                    Ok(response)
                } else if response.msg_type == XsMessageType::Error {
                    Err(response.parse_error())
                } else {
                    Err(XsError::UnrelatedResponse(response.msg_type))
                }
            },
        }
    }

    /// Builds the request for the names of a node's children.
    pub fn directory_request(path: &str) -> (request: XsMessage)
        ensures
            request.msg_type == XsMessageType::Directory,
            request.request_id == 0,
            request.payload@ == string_payload(path@),
    {
        XsMessage::from_string(XsMessageType::Directory, 0, path)
    }

    /// Reads the names of a node's children.
    pub fn directory(reply: XsReply) -> (names: Result<Vec<String>, XsError>)
        ensures
            match answer(XsMessageType::Directory, reply) {
                Some(payload) => {
                    &&& names is Ok <==> all_utf8(split_nul(payload))
                    &&& names matches Ok(list) ==> views(list@) == decode_all(split_nul(payload))
                    &&& names matches Err(e) ==> e is InvalidUtf8
                },
                None => names matches Err(e) && failure(XsMessageType::Directory, reply, e),
            },
    {
        match Self::transmit_request(XsMessageType::Directory, reply) {
            Ok(response) => response.parse_payload_list(),
            Err(e) => Err(e),
        }
    }

    /// Builds the request for the value of a node.
    pub fn read_request(path: &str) -> (request: XsMessage)
        ensures
            request.msg_type == XsMessageType::Read,
            request.request_id == 0,
            request.payload@ == string_payload(path@),
    {
        XsMessage::from_string(XsMessageType::Read, 0, path)
    }

    /// Reads the value of a node; an empty payload is an empty value.
    pub fn read(reply: XsReply) -> (value: Result<String, XsError>)
        ensures
            match answer(XsMessageType::Read, reply) {
                Some(payload) => {
                    &&& value is Ok <==> valid_utf8(first_piece(payload))
                    &&& value matches Ok(text) ==> text@ == decode_utf8(first_piece(payload))
                    &&& value matches Err(e) ==> e is InvalidUtf8
                },
                None => value matches Err(e) && failure(XsMessageType::Read, reply, e),
            },
    {
        match Self::transmit_request(XsMessageType::Read, reply) {
            Ok(response) => match response.parse_payload_str() {
                Ok(Some(text)) => Ok(text),
                Ok(None) => {
                    assert(first_piece(response.payload@) =~= Seq::empty());
                    Ok(String::new())
                },
                Err(e) => Err(e),
            },
            Err(e) => Err(e),
        }
    }

    /// Builds the request to give a node a value.
    pub fn write_request(path: &str, data: &str) -> (request: XsMessage)
        ensures
            request.msg_type == XsMessageType::Write,
            request.request_id == 0,
            request.payload@ == join_nul(seq![path@, data@], false),
    {
        let strings: [&str; 2] = [path, data];
        assert(str_views(strings@) =~= seq![path@, data@]);
        XsMessage::from_string_slice(XsMessageType::Write, 0, &strings, false)
    }

    /// Decides whether a node was given its value.
    pub fn write(reply: XsReply) -> (done: Result<(), XsError>)
        ensures
            acknowledged(XsMessageType::Write, reply, done),
    {
        match Self::transmit_request(XsMessageType::Write, reply) {
            Ok(_) => Ok(()),
            Err(e) => Err(e),
        }
    }

    /// Builds the request to remove a node.
    pub fn rm_request(path: &str) -> (request: XsMessage)
        ensures
            request.msg_type == XsMessageType::Rm,
            request.request_id == 0,
            request.payload@ == string_payload(path@),
    {
        XsMessage::from_string(XsMessageType::Rm, 0, path)
    }

    /// Decides whether a node was removed.
    pub fn rm(reply: XsReply) -> (done: Result<(), XsError>)
        ensures
            acknowledged(XsMessageType::Rm, reply, done),
    {
        match Self::transmit_request(XsMessageType::Rm, reply) {
            Ok(_) => Ok(()),
            Err(e) => Err(e),
        }
    }

    /// Builds the request for the permissions of a node.
    pub fn get_perms_request(path: &str) -> (request: XsMessage)
        ensures
            request.msg_type == XsMessageType::GetPerms,
            request.request_id == 0,
            request.payload@ == string_payload(path@),
    {
        XsMessage::from_string(XsMessageType::GetPerms, 0, path)
    }

    /// Reads the permissions of a node; the first text that is none decides the error.
    pub fn get_perms(reply: XsReply) -> (perms: Result<Vec<XsPermission>, XsError>)
        ensures
            match answer(XsMessageType::GetPerms, reply) {
                Some(payload) => {
                    let texts = decode_all(split_nul(payload));
                    match perms {
                        Ok(list) => all_utf8(split_nul(payload)) && stand_for(texts, list@),
                        Err(XsError::InvalidPermission(text)) => {
                            &&& all_utf8(split_nul(payload))
                            &&& is_first_invalid(texts, text@)
                        },
                        Err(e) => e is InvalidUtf8 && !all_utf8(split_nul(payload)),
                    }
                },
                None => perms matches Err(e) && failure(XsMessageType::GetPerms, reply, e),
            },
    {
        let response = match Self::transmit_request(XsMessageType::GetPerms, reply) {
            Ok(response) => response,
            Err(e) => {
                return Err(e);
            },
        };
        let payloads = match response.parse_payload_list() {
            Ok(payloads) => payloads,
            Err(e) => {
                return Err(e);
            },
        };
        let ghost texts = decode_all(split_nul(response.payload@));
        let mut perms: Vec<XsPermission> = Vec::new();
        let mut i: usize = 0;
        while i < payloads.len()
            invariant
                i <= payloads@.len(),
                perms@.len() == i,
                texts == views(payloads@),
                texts == decode_all(split_nul(response.payload@)),
                all_utf8(split_nul(response.payload@)),
                reply == XsReply::Response(response),
                answer(XsMessageType::GetPerms, reply) == Some(response.payload@),
                forall|j: int|
                    0 <= j < i ==> text_permission(#[trigger] texts[j]) == Some(perms@[j]),
            decreases payloads@.len() - i,
        {
            assert(texts[i as int] == payloads@[i as int]@);
            match XsPermission::from_str(payloads[i].as_str()) {
                Ok(perm) => {
                    perms.push(perm);
                },
                Err(e) => {
                    assert(first_invalid(texts, i as int));
                    assert(is_first_invalid(texts, e->InvalidPermission_0@));
                    return Err(e);
                },
            }
            i = i + 1;
        }
        Ok(perms)
    }

    /// Builds the request to give a node these permissions.
    pub fn set_perms_request(path: &str, perms: &[XsPermission]) -> (request: XsMessage)
        ensures
            request.msg_type == XsMessageType::SetPerms,
            request.request_id == 0,
            request.payload@ == join_nul(seq![path@] + permission_texts(perms@), true),
    {
        let mut perms_strings: Vec<String> = Vec::new();
        let mut i: usize = 0;
        while i < perms.len()
            invariant
                i <= perms@.len(),
                perms_strings@.len() == i,
                forall|j: int|
                    0 <= j < i ==> (#[trigger] perms_strings@[j])@ == perms@[j].spec_text(),
            decreases perms@.len() - i,
        {
            perms_strings.push(perms[i].to_string());
            i = i + 1;
        }
        let mut perms_str: Vec<&str> = Vec::new();
        perms_str.push(path);
        let mut k: usize = 0;
        while k < perms_strings.len()
            invariant
                k <= perms_strings@.len(),
                perms_str@.len() == k + 1,
                perms_str@[0]@ == path@,
                forall|j: int| 0 <= j < k ==> (#[trigger] perms_str@[j + 1])@ == perms_strings@[j]@,
            decreases perms_strings@.len() - k,
        {
            perms_str.push(perms_strings[k].as_str());
            k = k + 1;
        }
        proof {
            let views = str_views(perms_str@);
            let expected = seq![path@] + permission_texts(perms@);
            assert forall|j: int| 0 <= j < views.len() implies views[j] == expected[j] by {
                if j > 0 {
                    assert(perms_str@[(j - 1) + 1]@ == perms_strings@[j - 1]@);
                }
            }
            assert(views =~= expected);
        }
        XsMessage::from_string_slice(XsMessageType::SetPerms, 0, perms_str.as_slice(), true)
    }

    /// Decides whether a node was given its permissions.
    pub fn set_perms(reply: XsReply) -> (done: Result<(), XsError>)
        ensures
            acknowledged(XsMessageType::SetPerms, reply, done),
    {
        match Self::transmit_request(XsMessageType::SetPerms, reply) {
            Ok(_) => Ok(()),
            Err(e) => Err(e),
        }
    }

    /// Wraps a subscription up for the task that serves the connection.
    pub fn watch_message(path: &str) -> (subscription: XsSubscription)
        ensures
            subscription.wf(path@),
    {
        let (event_sender, event_receiver) = bounded_events(EVENT_QUEUE_LEN);
        let (result_channel, result_receiver) = oneshot_subscription();
        XsSubscription {
            message: XsAsyncMessage::WatchSubscribe {
                path: path.to_owned(),
                event_sender,
                result_channel,
            },
            event_receiver,
            result_receiver,
        }
    }

    /// Decides what becomes of a subscription whose events arrive at `event_receiver`.
    pub fn watch(
        &self,
        event_receiver: flume::Receiver<String>,
        reply: XsWatchReply,
    ) -> (watch: Result<XsAsyncWatch, XsError>)
        ensures
            match reply {
                XsWatchReply::Answer(Ok(token)) => {
                    &&& watch matches Ok(w)
                    &&& w.spec_token() == token
                    &&& w.spec_event_receiver() == event_receiver
                    &&& forall|receiver: flume::Receiver<XsAsyncMessage>, capacity: Option<usize>|
                        #[trigger] client_channel(w.spec_sender(), receiver, capacity)
                            == client_channel(self.spec_sender(), receiver, capacity)
                },
                _ => watch matches Err(e) && watch_failure(reply, e),
            },
    {
        match reply {
            XsWatchReply::NotSent => Err(XsError::NotSent),
            XsWatchReply::NoResponse => Err(XsError::NoResponse),
            XsWatchReply::Answer(Err(e)) => Err(e),
            XsWatchReply::Answer(Ok(token)) => Ok(
                XsAsyncWatch {
                    event_receiver,
                    async_channel: clone_client_sender(&self.0),
                    token,
                },
            ),
        }
    }
}

/// A subscription on its way, and where its outcome and its events arrive.
#[derive(Debug)]
pub struct XsSubscription {
    pub message: XsAsyncMessage,
    pub event_receiver: flume::Receiver<String>,
    pub result_receiver: oneshot::Receiver<Result<XsWatchToken, XsError>>,
}

impl XsSubscription {
    /// True if the message subscribes to the path, and the receivers are the other ends of the
    /// channels that it carries.
    pub open spec fn wf(&self, path: Seq<char>) -> bool {
        match self.message {
            XsAsyncMessage::WatchSubscribe { path: p, event_sender, result_channel } => {
                &&& p@ == path
                &&& event_channel(event_sender, self.event_receiver, Some(EVENT_QUEUE_LEN))
                &&& subscription_channel(result_channel, self.result_receiver)
            },
            _ => false,
        }
    }
}

/// A watch on a path.
#[derive(Debug)]
pub struct XsAsyncWatch {
    event_receiver: flume::Receiver<String>,
    async_channel: flume::Sender<XsAsyncMessage>,
    token: XsWatchToken,
}

impl XsAsyncWatch {
    /// Where the events of this watch arrive.
    pub closed spec fn spec_event_receiver(&self) -> flume::Receiver<String> {
        self.event_receiver
    }

    /// Where this watch is given up.
    pub closed spec fn spec_sender(&self) -> flume::Sender<XsAsyncMessage> {
        self.async_channel
    }

    /// The name of this watch.
    pub closed spec fn spec_token(&self) -> XsWatchToken {
        self.token
    }

    /// Returns where the events of this watch arrive.
    pub fn event_receiver(&self) -> (receiver: &flume::Receiver<String>)
        ensures
            *receiver == self.spec_event_receiver(),
    {
        &self.event_receiver
    }

    /// Returns where this watch is given up.
    pub fn sender(&self) -> (sender: &flume::Sender<XsAsyncMessage>)
        ensures
            *sender == self.spec_sender(),
    {
        &self.async_channel
    }

    /// Returns the message that gives this watch up.
    pub fn unsubscribe_message(&self) -> (message: XsAsyncMessage)
        ensures
            message == XsAsyncMessage::WatchUnsubscribe(self.spec_token()),
    {
        XsAsyncMessage::WatchUnsubscribe(self.token)
    }

    /// Decides what a watch yields: the path of the event that arrived, and nothing more once
    /// no event can arrive.
    pub fn poll_next(received: Result<String, flume::RecvError>) -> (event: Option<String>)
        ensures
            event == yielded(received),
    {
        match received {
            Ok(path) => Some(path),
            Err(_) => None,
        }
    }
}

} // verus!
