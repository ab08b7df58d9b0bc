//! What each operation of a client sends, and what it makes of what comes back.

use futures::channel::oneshot;
use vstd::prelude::*;
use vstd::utf8::encode_utf8;

use crate::channel::{client_channel, event_channel, response_channel, subscription_channel};
use crate::error::XsError;
use crate::interface::{XsAsyncMessage, XsWatchToken};
use crate::laws::{lemma_decimal_nul_free, lemma_encode_nul_free, nul_free};
use crate::payloads::{
    begins, holds, law_join_by_parts, lemma_join_lines, lemma_lines_end,
    lemma_reads_what_it_begins_with, lemma_reads_what_it_holds, lines,
};
use crate::permission::{law_permission_round_trip, text_permission, XsPermission};
use crate::wire::{XsMessage, XsMessageType};
use crate::xs_async::{
    acknowledged, answer, failure, XsAsyncImpl, XsAsyncWatch, XsReply, XsSubscription,
    XsWatchReply,
};

verus! {

/// True if a response of this type arrived.
pub open spec fn arrived(msg_type: XsMessageType, reply: XsReply) -> bool {
    reply matches XsReply::Response(response) && response.msg_type == msg_type
}

/// True if `error` tells what happened instead of a response: that the request could not be
/// handed over, that nothing came back, the reason that Xenstore gave, or that the response is
/// about something else.
pub open spec fn tells(reply: XsReply, error: XsError) -> bool {
    match reply {
        XsReply::NotSent => error is NotSent,
        XsReply::NoResponse => error is NoResponse,
        XsReply::Response(response) => match error {
            XsError::Refused(reason) => {
                &&& response.msg_type == XsMessageType::Error
                &&& begins(response.payload@, reason@)
            },
            XsError::InvalidUtf8 => {
                &&& response.msg_type == XsMessageType::Error
                &&& forall|reason: Seq<char>| !#[trigger] begins(response.payload@, reason)
            },
            XsError::UnrelatedResponse(msg_type) => {
                &&& response.msg_type != XsMessageType::Error
                &&& response.msg_type == msg_type
            },
            _ => false,
        },
    }
}

/// The request for a node's children, value, removal or permissions carries the path, all of it,
/// and one NUL byte.
pub proof fn law_requests_carry_the_path(
    path: &str,
    directory: XsMessage,
    read: XsMessage,
    rm: XsMessage,
    get_perms: XsMessage,
)
    requires
        call_ensures(XsAsyncImpl::directory_request, (path,), directory),
        call_ensures(XsAsyncImpl::read_request, (path,), read),
        call_ensures(XsAsyncImpl::rm_request, (path,), rm),
        call_ensures(XsAsyncImpl::get_perms_request, (path,), get_perms),
    ensures
        directory.msg_type == XsMessageType::Directory,
        directory.payload@ == encode_utf8(path@).push(0u8),
        read.msg_type == XsMessageType::Read,
        read.payload@ == encode_utf8(path@).push(0u8),
        rm.msg_type == XsMessageType::Rm,
        rm.payload@ == encode_utf8(path@).push(0u8),
        get_perms.msg_type == XsMessageType::GetPerms,
        get_perms.payload@ == encode_utf8(path@).push(0u8),
{
    law_join_by_parts(seq![], seq![], path@, true);
}

/// The request to give a node a value carries the path, one NUL byte and the data, all of it.
pub proof fn law_write_carries_path_and_data(path: &str, data: &str, request: XsMessage)
    requires
        call_ensures(XsAsyncImpl::write_request, (path, data), request),
    ensures
        request.msg_type == XsMessageType::Write,
        request.payload@ == encode_utf8(path@) + seq![0u8] + encode_utf8(data@),
{
    law_join_by_parts(seq![path@], seq![data@], path@, false);
    law_join_by_parts(seq![], seq![], data@, false);
    assert(seq![path@] + seq![data@] =~= seq![path@, data@]);
    assert(request.payload@ =~= encode_utf8(path@) + seq![0u8] + encode_utf8(data@));
}

/// The request to give a node permissions carries the path and then the text of every permission,
/// in order, with one NUL byte behind each.
pub proof fn law_set_perms_carries_path_and_permissions(
    path: &str,
    perms: &[XsPermission],
    texts: Seq<String>,
    request: XsMessage,
)
    requires
        call_ensures(XsAsyncImpl::set_perms_request, (path, perms), request),
        texts.len() == perms@.len(),
        forall|i: int|
            0 <= i < texts.len() ==> call_ensures(
                XsPermission::to_string,
                (&perms@[i],),
                #[trigger] texts[i],
            ),
    ensures
        request.msg_type == XsMessageType::SetPerms,
        request.payload@ == lines(
            seq![encode_utf8(path@)] + texts.map_values(|t: String| encode_utf8(t@)),
        ),
{
    let strings = seq![path@] + perms@.map_values(|p: XsPermission| p.spec_text());
    let encoded = strings.map_values(|text: Seq<char>| encode_utf8(text));
    let expected = seq![encode_utf8(path@)] + texts.map_values(|t: String| encode_utf8(t@));
    lemma_join_lines(strings);
    assert forall|i: int| 0 <= i < encoded.len() implies encoded[i] == expected[i] by {
        if i > 0 {
            assert(call_ensures(XsPermission::to_string, (&perms@[i - 1],), texts[i - 1]));
        }
    }
    assert(encoded =~= expected);
}

/// A request goes to the task that serves the connection as it is, with the sender of the channel
/// that the client waits at.
pub proof fn law_request_is_wrapped_as_it_is(
    request: XsMessage,
    exchange: (XsAsyncMessage, oneshot::Receiver<XsMessage>),
)
    requires
        call_ensures(XsAsyncImpl::request_message, (request,), exchange),
    ensures
        exchange.0 matches XsAsyncMessage::Request(r) && r.request == request
            && response_channel(r.response_sender, exchange.1),
{
}

/// Whenever a response arrives whose type is the type of the request, the request is answered by
/// it, whatever its payload: the payload is the answer, and no error is the failure. Whatever else
/// came of the request, it has no answer.
pub proof fn law_response_of_its_type_answers(
    req_msg_type: XsMessageType,
    response: XsMessage,
    reply: XsReply,
    error: XsError,
)
    ensures
        response.msg_type == req_msg_type ==> {
            &&& answer(req_msg_type, XsReply::Response(response)) == Some(response.payload@)
            &&& !failure(req_msg_type, XsReply::Response(response), error)
        },
        answer(req_msg_type, reply) is Some <==> arrived(req_msg_type, reply),
{
}

/// A request that is not answered fails with the error that tells why, for every reply: that it
/// was not handed over, that nothing came back, for an error response the reason that Xenstore
/// gave, else the type of the response.
pub proof fn law_unanswered_request_tells_why(
    req_msg_type: XsMessageType,
    reply: XsReply,
    error: XsError,
)
    requires
        failure(req_msg_type, reply, error),
    ensures
        tells(reply, error),
        !arrived(req_msg_type, reply),
        reply is NotSent <==> error is NotSent,
        reply is NoResponse <==> error is NoResponse,
        reply matches XsReply::Response(response) ==> response.msg_type == XsMessageType::Error
            ==> (forall|reason: Seq<char>| #[trigger]
            begins(response.payload@, reason) ==> (error matches XsError::Refused(r) && r@
                == reason)),
        reply matches XsReply::Response(response) ==> response.msg_type == XsMessageType::Error
            ==> ((error matches XsError::Refused(r) && begins(response.payload@, r@))
            || error is InvalidUtf8),
        reply matches XsReply::Response(response) ==> response.msg_type != XsMessageType::Error
            ==> error == XsError::UnrelatedResponse(response.msg_type),
{
    if let XsReply::Response(response) = reply {
        lemma_reads_what_it_begins_with(response.payload@);
    }
}

/// A request gets the response exactly if one of its own type arrived, and then just that one;
/// for every other reply it gets the error that tells why.
pub proof fn law_request_gets_its_response(
    req_msg_type: XsMessageType,
    reply: XsReply,
    response: Result<XsMessage, XsError>,
)
    requires
        call_ensures(XsAsyncImpl::transmit_request, (req_msg_type, reply), response),
    ensures
        response is Ok <==> arrived(req_msg_type, reply),
        response matches Ok(r) ==> reply == XsReply::Response(r),
        response matches Err(e) ==> tells(reply, e),
{
    if let Err(e) = response {
        law_unanswered_request_tells_why(req_msg_type, reply, e);
    }
}

/// A request whose response carries no data succeeds exactly if a response of its own type
/// arrived. For every other reply, an error response with any reason among them, it fails, and
/// for an error response the error tells the reason that Xenstore gave.
pub proof fn law_acknowledged_by_its_type_only(
    req_msg_type: XsMessageType,
    reply: XsReply,
    result: Result<(), XsError>,
)
    requires
        acknowledged(req_msg_type, reply, result),
    ensures
        result is Ok <==> (reply matches XsReply::Response(response) && response.msg_type
            == req_msg_type),
        result matches Err(e) ==> tells(reply, e),
        reply matches XsReply::Response(response) ==> response.msg_type == XsMessageType::Error
            && req_msg_type != XsMessageType::Error ==> (forall|reason: Seq<char>| #[trigger]
            begins(response.payload@, reason) ==> (result matches Err(XsError::Refused(r)) && r@
                == reason)),
{
    if let Err(e) = result {
        law_unanswered_request_tells_why(req_msg_type, reply, e);
    }
}

/// Writing, removing and setting permissions succeed exactly if a response of that very type
/// arrived, and otherwise fail with the error that tells why.
pub proof fn law_changes_succeed_when_acknowledged(
    reply: XsReply,
    write: Result<(), XsError>,
    rm: Result<(), XsError>,
    set_perms: Result<(), XsError>,
)
    requires
        call_ensures(XsAsyncImpl::write, (reply,), write),
        call_ensures(XsAsyncImpl::rm, (reply,), rm),
        call_ensures(XsAsyncImpl::set_perms, (reply,), set_perms),
    ensures
        write is Ok <==> arrived(XsMessageType::Write, reply),
        write matches Err(e) ==> tells(reply, e),
        rm is Ok <==> arrived(XsMessageType::Rm, reply),
        rm matches Err(e) ==> tells(reply, e),
        set_perms is Ok <==> arrived(XsMessageType::SetPerms, reply),
        set_perms matches Err(e) ==> tells(reply, e),
{
    law_acknowledged_by_its_type_only(XsMessageType::Write, reply, write);
    law_acknowledged_by_its_type_only(XsMessageType::Rm, reply, rm);
    law_acknowledged_by_its_type_only(XsMessageType::SetPerms, reply, set_perms);
}

/// Reading gives the text that the response begins with, whatever the text and however long, and
/// fails where the response begins with none; without a response, it fails with the error that
/// tells why.
pub proof fn law_read_gives_the_value(reply: XsReply, value: Result<String, XsError>)
    requires
        call_ensures(XsAsyncImpl::read, (reply,), value),
    ensures
        !arrived(XsMessageType::Read, reply) ==> (value matches Err(e) && tells(reply, e)),
        reply matches XsReply::Response(response) ==> response.msg_type == XsMessageType::Read
            ==> (forall|text: Seq<char>| #[trigger]
            begins(response.payload@, text) ==> (value matches Ok(v) && v@ == text)),
        reply matches XsReply::Response(response) ==> response.msg_type == XsMessageType::Read
            ==> match value {
            Ok(v) => begins(response.payload@, v@),
            Err(e) => e is InvalidUtf8,
        },
{
    if let XsReply::Response(response) = reply {
        lemma_reads_what_it_begins_with(response.payload@);
    }
    if !arrived(XsMessageType::Read, reply) {
        law_unanswered_request_tells_why(XsMessageType::Read, reply, value->Err_0);
    }
}

/// Listing gives every text that the response is made of, in order, and fails where it is not
/// made of texts; without a response, it fails with the error that tells why.
pub proof fn law_directory_gives_all_names(reply: XsReply, names: Result<Vec<String>, XsError>)
    requires
        call_ensures(XsAsyncImpl::directory, (reply,), names),
    ensures
        !arrived(XsMessageType::Directory, reply) ==> (names matches Err(e) && tells(reply, e)),
        reply matches XsReply::Response(response) ==> response.msg_type == XsMessageType::Directory
            ==> (forall|texts: Seq<Seq<char>>| #[trigger]
            holds(response.payload@, texts) ==> (names matches Ok(list) && list@.map_values(
                |t: String| t@,
            ) == texts)),
        reply matches XsReply::Response(response) ==> response.msg_type == XsMessageType::Directory
            ==> match names {
            Ok(list) => holds(response.payload@, list@.map_values(|t: String| t@)),
            Err(e) => e is InvalidUtf8,
        },
{
    if let XsReply::Response(response) = reply {
        lemma_reads_what_it_holds(response.payload@);
    }
    if !arrived(XsMessageType::Directory, reply) {
        law_unanswered_request_tells_why(XsMessageType::Directory, reply, names->Err_0);
    }
}

/// The permissions of a node are those that the texts of the response stand for, one for one and
/// in order. The first text that stands for none is reported; a response that is not made of texts
/// is, too; without a response, the error tells why.
pub proof fn law_get_perms_gives_all_permissions(
    reply: XsReply,
    perms: Result<Vec<XsPermission>, XsError>,
)
    requires
        call_ensures(XsAsyncImpl::get_perms, (reply,), perms),
    ensures
        !arrived(XsMessageType::GetPerms, reply) ==> (perms matches Err(e) && tells(reply, e)),
        reply matches XsReply::Response(response) ==> response.msg_type == XsMessageType::GetPerms
            ==> (forall|texts: Seq<Seq<char>>| #[trigger]
            holds(response.payload@, texts) ==> match perms {
                Ok(list) => {
                    &&& list@.len() == texts.len()
                    &&& forall|i: int|
                        0 <= i < texts.len() ==> text_permission(#[trigger] texts[i]) == Some(
                            list@[i],
                        )
                },
                Err(XsError::InvalidPermission(text)) => exists|i: int|
                    {
                        &&& 0 <= i < texts.len()
                        &&& #[trigger] texts[i] == text@
                        &&& text_permission(texts[i]) is None
                        &&& forall|j: int|
                            0 <= j < i ==> text_permission(#[trigger] texts[j]) is Some
                    },
                Err(_) => false,
            }),
        reply matches XsReply::Response(response) ==> response.msg_type == XsMessageType::GetPerms
            && (forall|texts: Seq<Seq<char>>| !#[trigger] holds(response.payload@, texts)) ==> (
        perms matches Err(e) && e is InvalidUtf8),
{
    if let XsReply::Response(response) = reply {
        lemma_reads_what_it_holds(response.payload@);
    }
    if !arrived(XsMessageType::GetPerms, reply) {
        law_unanswered_request_tells_why(XsMessageType::GetPerms, reply, perms->Err_0);
    }
}

/// A subscription carries the path, all of it, and the senders of the channels that its client
/// waits at; the one for events holds eight of them.
pub proof fn law_subscription_carries_path_and_channels(path: &str, subscription: XsSubscription)
    requires
        call_ensures(XsAsyncImpl::watch_message, (path,), subscription),
    ensures
        subscription.message matches XsAsyncMessage::WatchSubscribe {
            path: p,
            event_sender,
            result_channel,
        } && p@ == path@ && event_channel(event_sender, subscription.event_receiver, Some(8usize))
            && subscription_channel(result_channel, subscription.result_receiver),
{
}

/// A subscription leads to a watch exactly if the answer is a token. The events of that watch are
/// those that arrive at the receiver, and giving it up names this token, at the task of the client
/// that subscribed. Otherwise the error is the one in the answer, or tells that there is none.
pub proof fn law_subscription_leads_to_its_watch(
    client: XsAsyncImpl,
    event_receiver: flume::Receiver<String>,
    reply: XsWatchReply,
    watch: Result<XsAsyncWatch, XsError>,
)
    requires
        call_ensures(XsAsyncImpl::watch, (&client, event_receiver, reply), watch),
    ensures
        watch is Ok <==> (reply matches XsWatchReply::Answer(answer) && answer is Ok),
        watch matches Ok(w) ==> forall|message: XsAsyncMessage| #[trigger]
            call_ensures(XsAsyncWatch::unsubscribe_message, (&w,), message) ==> (
            reply matches XsWatchReply::Answer(Ok(token)) && message
                == XsAsyncMessage::WatchUnsubscribe(token)),
        watch matches Ok(w) ==> forall|receiver: &flume::Receiver<String>| #[trigger]
            call_ensures(XsAsyncWatch::event_receiver, (&w,), receiver) ==> *receiver
                == event_receiver,
        watch matches Ok(w) ==> forall|
            sender: &flume::Sender<XsAsyncMessage>,
            receiver: flume::Receiver<XsAsyncMessage>,
            capacity: Option<usize>,
        |
            #![trigger call_ensures(XsAsyncWatch::sender, (&w,), sender), client_channel(
                *sender,
                receiver,
                capacity,
            )]
            call_ensures(XsAsyncWatch::sender, (&w,), sender) ==> client_channel(
                *sender,
                receiver,
                capacity,
            ) == client_channel(client.spec_sender(), receiver, capacity),
        reply matches XsWatchReply::Answer(Err(e)) ==> watch == Err::<XsAsyncWatch, XsError>(e),
        reply is NotSent ==> (watch matches Err(e) && e is NotSent),
        reply is NoResponse ==> (watch matches Err(e) && e is NoResponse),
{
}

/// A watch yields the path of every event that arrives, as it is, and nothing exactly if none can
/// arrive any more.
pub proof fn law_watch_yields_every_event(
    received: Result<String, flume::RecvError>,
    event: Option<String>,
)
    requires
        call_ensures(XsAsyncWatch::poll_next, (received,), event),
    ensures
        received matches Ok(path) ==> event == Some(path),
        received is Err ==> event is None,
{
}

/// The value that is read is the one that was written: where the response carries what the request
/// to write carried behind the path, reading gives the data, whatever the data.
pub proof fn law_written_value_is_read(
    path: &str,
    data: &str,
    request: XsMessage,
    response: XsMessage,
    value: Result<String, XsError>,
)
    requires
        nul_free(data@),
        call_ensures(XsAsyncImpl::write_request, (path, data), request),
        response.msg_type == XsMessageType::Read,
        response.payload@ == request.payload@.skip(encode_utf8(path@).len() as int + 1),
        call_ensures(XsAsyncImpl::read, (XsReply::Response(response),), value),
    ensures
        value matches Ok(v) && v@ == data@,
{
    let bytes = encode_utf8(data@);
    law_write_carries_path_and_data(path, data, request);
    lemma_encode_nul_free(data@);
    assert(response.payload@ =~= bytes);
    assert(bytes.take(bytes.len() as int) =~= bytes);
    assert(begins(response.payload@, data@));
    law_read_gives_the_value(XsReply::Response(response), value);
}

/// The permissions that are read are those that were set: where the response carries what the
/// request to set them carried behind the path, reading gives the permissions, one for one.
pub proof fn law_set_permissions_are_read(
    path: &str,
    perms: &[XsPermission],
    request: XsMessage,
    response: XsMessage,
    read: Result<Vec<XsPermission>, XsError>,
)
    requires
        call_ensures(XsAsyncImpl::set_perms_request, (path, perms), request),
        response.msg_type == XsMessageType::GetPerms,
        response.payload@ == request.payload@.skip(encode_utf8(path@).len() as int + 1),
        call_ensures(XsAsyncImpl::get_perms, (XsReply::Response(response),), read),
    ensures
        read matches Ok(list) && list@ == perms@,
{
    let texts = perms@.map_values(|p: XsPermission| p.spec_text());
    let encoded = texts.map_values(|text: Seq<char>| encode_utf8(text));
    assert forall|i: int| 0 <= i < texts.len() implies !(#[trigger] encode_utf8(
        texts[i],
    )).contains(0u8) && text_permission(texts[i]) == Some(perms@[i]) by {
        law_permission_round_trip(perms@[i]);
        lemma_decimal_nul_free(perms@[i].domid as nat);
        assert(nul_free(texts[i]));
        lemma_encode_nul_free(texts[i]);
    }
    if texts.len() > 0 {
        law_join_by_parts(seq![path@], texts, path@, true);
    } else {
        law_join_by_parts(seq![], seq![], path@, true);
        assert(seq![path@] + texts =~= seq![path@]);
        assert(lines(encoded) =~= Seq::empty());
    }
    law_join_by_parts(seq![], seq![], path@, true);
    lemma_join_lines(texts);
    assert(response.payload@ =~= lines(encoded));
    lemma_lines_end(encoded);
    assert(holds(response.payload@, texts));
    law_get_perms_gives_all_permissions(XsReply::Response(response), read);
    if let Ok(list) = read {
        assert forall|i: int| 0 <= i < perms@.len() implies list@[i] == perms@[i] by {
            assert(!encode_utf8(texts[i]).contains(0u8));
            assert(text_permission(texts[i]) == Some(list@[i]));
        }
        assert(list@ =~= perms@);
    } else {
        let i = choose|i: int| 0 <= i < texts.len() && text_permission(#[trigger] texts[i]) is None;
        assert(!encode_utf8(texts[i]).contains(0u8));
    }
}

/// An exchange is over as soon as its request could not be handed over, and not before something
/// came back otherwise; what came back is kept as it is.
pub proof fn law_replies_tell_what_happened(
    sent: bool,
    request: Option<XsReply>,
    subscription: Option<XsWatchReply>,
    response: Result<XsMessage, oneshot::Canceled>,
    reply: XsReply,
    outcome: Result<Result<XsWatchToken, XsError>, oneshot::Canceled>,
    answer: XsWatchReply,
)
    requires
        call_ensures(XsReply::handed_over, (sent,), request),
        call_ensures(XsWatchReply::handed_over, (sent,), subscription),
        call_ensures(XsReply::received, (response,), reply),
        call_ensures(XsWatchReply::received, (outcome,), answer),
    ensures
        sent <==> request is None,
        sent <==> subscription is None,
        !sent ==> request == Some(XsReply::NotSent) && subscription == Some(XsWatchReply::NotSent),
        response matches Ok(r) ==> reply == XsReply::Response(r),
        response is Err ==> reply is NoResponse,
        outcome matches Ok(o) ==> answer == XsWatchReply::Answer(o),
        outcome is Err ==> answer is NoResponse,
{
}

} // verus!
