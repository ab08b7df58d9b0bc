use futures::channel::oneshot;
use xenstore_async::error::{XsError, XsErrorKind};
use xenstore_async::interface::{XsAsyncMessage, XsWatchToken};
use xenstore_async::permission::{XsAccess, XsPermission};
use xenstore_async::wire::{XsMessage, XsMessageType};
use xenstore_async::xs_async::{XsAsyncImpl, XsAsyncWatch, XsReply, XsWatchReply};

fn response(msg_type: XsMessageType, payload: &[u8]) -> XsReply {
    XsReply::Response(XsMessage { msg_type, request_id: 0, payload: payload.to_vec() })
}

fn client() -> (XsAsyncImpl, flume::Receiver<XsAsyncMessage>) {
    let (tx, rx) = flume::unbounded();
    (XsAsyncImpl::new(tx).unwrap(), rx)
}

#[test]
fn path_requests() {
    let requests = [
        (XsAsyncImpl::directory_request("/vm"), XsMessageType::Directory),
        (XsAsyncImpl::read_request("/vm"), XsMessageType::Read),
        (XsAsyncImpl::rm_request("/vm"), XsMessageType::Rm),
        (XsAsyncImpl::get_perms_request("/vm"), XsMessageType::GetPerms),
    ];
    for (request, msg_type) in requests {
        assert_eq!(request.msg_type, msg_type);
        assert_eq!(request.request_id, 0);
        assert_eq!(request.payload, b"/vm\0".to_vec());
    }
}

#[test]
fn write_requests() {
    let request = XsAsyncImpl::write_request("/a", "data");
    assert_eq!(request.msg_type, XsMessageType::Write);
    assert_eq!(request.request_id, 0);
    assert_eq!(request.payload, b"/a\0data".to_vec());
    assert_eq!(XsAsyncImpl::write_request("/a", "").payload, b"/a\0".to_vec());
}

#[test]
fn set_perms_requests() {
    let perms = [
        XsPermission { access: XsAccess::Nothing, domid: 0 },
        XsPermission { access: XsAccess::ReadWrite, domid: 15 },
    ];
    let request = XsAsyncImpl::set_perms_request("/a", &perms);
    assert_eq!(request.msg_type, XsMessageType::SetPerms);
    assert_eq!(request.request_id, 0);
    assert_eq!(request.payload, b"/a\0n0\0b15\0".to_vec());
    assert_eq!(XsAsyncImpl::set_perms_request("/a", &[]).payload, b"/a\0".to_vec());
}

#[test]
fn matching_response_is_handed_back() {
    let r = XsAsyncImpl::transmit_request(XsMessageType::Rm, response(XsMessageType::Rm, b"OK\0"));
    assert_eq!(r.unwrap().payload, b"OK\0".to_vec());
    let r = XsAsyncImpl::transmit_request(
        XsMessageType::Error,
        response(XsMessageType::Error, b"EIO\0"),
    );
    assert_eq!(r.unwrap().payload, b"EIO\0".to_vec());
}

#[test]
fn refused_request() {
    let replies = [
        XsAsyncImpl::directory(response(XsMessageType::Error, b"ENOENT\0")).map(|_| ()),
        XsAsyncImpl::read(response(XsMessageType::Error, b"ENOENT\0")).map(|_| ()),
        XsAsyncImpl::write(response(XsMessageType::Error, b"ENOENT\0")),
        XsAsyncImpl::rm(response(XsMessageType::Error, b"ENOENT\0")),
        XsAsyncImpl::get_perms(response(XsMessageType::Error, b"ENOENT\0")).map(|_| ()),
        XsAsyncImpl::set_perms(response(XsMessageType::Error, b"ENOENT\0")),
    ];
    for reply in replies {
        match reply {
            Err(XsError::Refused(reason)) => assert_eq!(reason, "ENOENT"),
            other => panic!("{:?}", other),
        }
    }
}

#[test]
fn unrelated_response() {
    let e = XsAsyncImpl::read(response(XsMessageType::Write, b"")).unwrap_err();
    assert!(matches!(e, XsError::UnrelatedResponse(XsMessageType::Write)));
    assert_eq!(e.kind(), XsErrorKind::InvalidData);
    assert_eq!(e.message(), "Got unrelated response (Write)");
    let e = XsAsyncImpl::write(response(XsMessageType::Read, b"")).unwrap_err();
    assert!(matches!(e, XsError::UnrelatedResponse(XsMessageType::Read)));
}

#[test]
fn dead_task_breaks_every_operation() {
    for alive_at_first in [false, true] {
        let reply = || if alive_at_first { XsReply::NoResponse } else { XsReply::NotSent };
        let errors = [
            XsAsyncImpl::directory(reply()).unwrap_err(),
            XsAsyncImpl::read(reply()).unwrap_err(),
            XsAsyncImpl::write(reply()).unwrap_err(),
            XsAsyncImpl::rm(reply()).unwrap_err(),
            XsAsyncImpl::get_perms(reply()).unwrap_err(),
            XsAsyncImpl::set_perms(reply()).unwrap_err(),
        ];
        for e in errors {
            assert_eq!(e.kind(), XsErrorKind::BrokenPipe);
            assert_eq!(matches!(e, XsError::NoResponse), alive_at_first);
        }
    }
    let (c, _rx) = client();
    let subscription = XsAsyncImpl::watch_message("/a");
    let e = c.watch(subscription.event_receiver, XsWatchReply::NotSent).unwrap_err();
    assert_eq!(e.kind(), XsErrorKind::BrokenPipe);
    let subscription = XsAsyncImpl::watch_message("/a");
    let e = c.watch(subscription.event_receiver, XsWatchReply::NoResponse).unwrap_err();
    assert_eq!(e.kind(), XsErrorKind::BrokenPipe);
}

#[test]
fn directory_names() {
    let names = XsAsyncImpl::directory(response(XsMessageType::Directory, b"0\x001\0")).unwrap();
    assert_eq!(names, vec!["0", "1"]);
    assert!(XsAsyncImpl::directory(response(XsMessageType::Directory, b"")).unwrap().is_empty());
    let e = XsAsyncImpl::directory(response(XsMessageType::Directory, b"\xff\0")).unwrap_err();
    assert!(matches!(e, XsError::InvalidUtf8));
    assert_eq!(e.kind(), XsErrorKind::InvalidData);
}

#[test]
fn read_values() {
    assert_eq!(XsAsyncImpl::read(response(XsMessageType::Read, b"v")).unwrap(), "v");
    assert_eq!(XsAsyncImpl::read(response(XsMessageType::Read, b"")).unwrap(), "");
    let e = XsAsyncImpl::read(response(XsMessageType::Read, b"\xc3")).unwrap_err();
    assert!(matches!(e, XsError::InvalidUtf8));
}

#[test]
fn read_returns_what_was_written() {
    for data in ["", "plain", "\u{fc}\u{1f600}"] {
        let payload = XsAsyncImpl::write_request("/path", data).payload;
        let value = &payload[payload.iter().position(|b| *b == 0).unwrap() + 1..];
        assert_eq!(XsAsyncImpl::read(response(XsMessageType::Read, value)).unwrap(), data);
    }
}

#[test]
fn write_and_rm_are_acknowledged() {
    assert!(XsAsyncImpl::write(response(XsMessageType::Write, b"OK\0")).is_ok());
    assert!(XsAsyncImpl::rm(response(XsMessageType::Rm, b"OK\0")).is_ok());
    assert!(XsAsyncImpl::set_perms(response(XsMessageType::SetPerms, b"OK\0")).is_ok());
}

#[test]
fn permissions_read_as_set() {
    let perms = [
        XsPermission { access: XsAccess::Read, domid: 3 },
        XsPermission { access: XsAccess::Write, domid: 40 },
    ];
    let payload = XsAsyncImpl::set_perms_request("/path", &perms).payload;
    let list = &payload[payload.iter().position(|b| *b == 0).unwrap() + 1..];
    let read = XsAsyncImpl::get_perms(response(XsMessageType::GetPerms, list)).unwrap();
    assert_eq!(read, perms.to_vec());
}

#[test]
fn first_invalid_permission_is_reported() {
    let e = XsAsyncImpl::get_perms(response(XsMessageType::GetPerms, b"n0\0q1\0z2\0")).unwrap_err();
    assert_eq!(e.kind(), XsErrorKind::Other);
    match e {
        XsError::InvalidPermission(text) => assert_eq!(text, "q1"),
        other => panic!("{:?}", other),
    }
    let e = XsAsyncImpl::get_perms(response(XsMessageType::GetPerms, b"q1\0\xff\0")).unwrap_err();
    assert!(matches!(e, XsError::InvalidUtf8));
    assert!(XsAsyncImpl::get_perms(response(XsMessageType::GetPerms, b"")).unwrap().is_empty());
}

#[test]
fn replies() {
    let m = XsMessage::from_string(XsMessageType::Read, 3, "x");
    match XsReply::received(Ok(m)) {
        XsReply::Response(r) => assert_eq!(r.request_id, 3),
        other => panic!("{:?}", other),
    }
    assert!(matches!(XsReply::received(Err(oneshot::Canceled)), XsReply::NoResponse));
    assert!(matches!(
        XsWatchReply::received(Ok(Ok(XsWatchToken(4)))),
        XsWatchReply::Answer(Ok(XsWatchToken(4)))
    ));
    assert!(matches!(XsWatchReply::received(Err(oneshot::Canceled)), XsWatchReply::NoResponse));
}

#[test]
fn failed_send_ends_the_exchange() {
    assert!(matches!(XsReply::handed_over(false), Some(XsReply::NotSent)));
    assert!(XsReply::handed_over(true).is_none());
    assert!(matches!(XsWatchReply::handed_over(false), Some(XsWatchReply::NotSent)));
    assert!(XsWatchReply::handed_over(true).is_none());

    let (c, rx) = client();
    drop(rx);
    let (message, _receiver) = XsAsyncImpl::request_message(XsAsyncImpl::rm_request("/a"));
    let reply = XsReply::handed_over(c.sender().send(message).is_ok()).unwrap();
    assert_eq!(XsAsyncImpl::rm(reply).unwrap_err().kind(), XsErrorKind::BrokenPipe);
}

#[test]
fn request_message_carries_its_own_channel() {
    let (message, mut receiver) =
        XsAsyncImpl::request_message(XsAsyncImpl::read_request("/a"));
    match message {
        XsAsyncMessage::Request(r) => {
            assert_eq!(r.request.payload, b"/a\0".to_vec());
            r.response_sender.send(XsMessage::from_string(XsMessageType::Read, 9, "v")).unwrap();
        }
        other => panic!("{:?}", other),
    }
    assert_eq!(receiver.try_recv().unwrap().unwrap().request_id, 9);
}

#[test]
fn dropped_request_is_a_broken_pipe() {
    let (message, mut receiver) =
        XsAsyncImpl::request_message(XsAsyncImpl::read_request("/a"));
    drop(message);
    let reply = match receiver.try_recv() {
        Ok(Some(m)) => XsReply::received(Ok(m)),
        Ok(None) => panic!("still waiting"),
        Err(canceled) => XsReply::received(Err(canceled)),
    };
    assert_eq!(XsAsyncImpl::read(reply).unwrap_err().kind(), XsErrorKind::BrokenPipe);
}

#[test]
fn clones_reach_the_same_task() {
    let (c, rx) = client();
    let d = c.clone();
    d.sender().send(XsAsyncMessage::WatchUnsubscribe(XsWatchToken(1))).unwrap();
    c.sender().send(XsAsyncMessage::WatchUnsubscribe(XsWatchToken(2))).unwrap();
    assert!(matches!(rx.try_recv(), Ok(XsAsyncMessage::WatchUnsubscribe(XsWatchToken(1)))));
    assert!(matches!(rx.try_recv(), Ok(XsAsyncMessage::WatchUnsubscribe(XsWatchToken(2)))));
    assert!(c.sender().same_channel(d.sender()));
}

#[test]
fn subscription_carries_its_own_channels() {
    let mut subscription = XsAsyncImpl::watch_message("/w");
    match subscription.message {
        XsAsyncMessage::WatchSubscribe { path, event_sender, result_channel } => {
            assert_eq!(path, "/w");
            assert_eq!(event_sender.capacity(), Some(8));
            event_sender.try_send("/w/x".to_string()).unwrap();
            result_channel.send(Ok(XsWatchToken(5))).unwrap();
        }
        other => panic!("{:?}", other),
    }
    assert_eq!(subscription.event_receiver.try_recv().unwrap(), "/w/x");
    assert!(matches!(subscription.result_receiver.try_recv(), Ok(Some(Ok(XsWatchToken(5))))));
}

#[test]
fn watch_outcomes() {
    let (c, rx) = client();
    let subscription = XsAsyncImpl::watch_message("/w");
    let refused = XsWatchReply::Answer(Err(XsError::Refused("EACCES".to_string())));
    let e = c.watch(subscription.event_receiver, refused).unwrap_err();
    assert_eq!(e.message(), "EACCES");

    let (event_sender, event_receiver) = flume::bounded(8);
    let watch = c.watch(event_receiver, XsWatchReply::Answer(Ok(XsWatchToken(6)))).unwrap();
    event_sender.send("/w/y".to_string()).unwrap();
    assert_eq!(XsAsyncWatch::poll_next(watch.event_receiver().recv()), Some("/w/y".to_string()));
    drop(event_sender);
    assert_eq!(XsAsyncWatch::poll_next(watch.event_receiver().recv()), None);
    assert!(watch.sender().same_channel(c.sender()));
    watch.sender().send(watch.unsubscribe_message()).unwrap();
    assert!(matches!(rx.try_recv(), Ok(XsAsyncMessage::WatchUnsubscribe(XsWatchToken(6)))));
}
