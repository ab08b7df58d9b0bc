use futures::channel::oneshot;
use xenstore_async::error::XsError;
use xenstore_async::interface::{XsAsyncMessage, XsWatchToken};
use xenstore_async::state::{XsAsyncState, XsDelivery};
use xenstore_async::task::{serve, XsServeAction, XsServeEvent};
use xenstore_async::wire::{XsMessage, XsMessageType};
use xenstore_async::xs_async::{XsAsyncImpl, XsAsyncWatch, XsSubscription};

fn request(state: &mut XsAsyncState, path: &str) -> (u32, oneshot::Receiver<XsMessage>) {
    let (message, receiver) = XsAsyncImpl::request_message(XsAsyncImpl::read_request(path));
    let out = state.on_client(message).unwrap();
    assert_eq!(out.msg_type, XsMessageType::Read);
    assert_eq!(out.payload, format!("{}\0", path).into_bytes());
    (out.request_id, receiver)
}

fn answer(state: &mut XsAsyncState, msg_type: XsMessageType, id: u32, payload: &[u8]) -> XsDelivery {
    state.on_server(XsMessage { msg_type, request_id: id, payload: payload.to_vec() })
}

fn subscribe(state: &mut XsAsyncState, path: &str) -> (XsMessage, flume::Receiver<String>, oneshot::Receiver<Result<XsWatchToken, XsError>>) {
    let XsSubscription { message, event_receiver, result_receiver } =
        XsAsyncImpl::watch_message(path);
    (state.on_client(message).unwrap(), event_receiver, result_receiver)
}

fn confirmed(state: &mut XsAsyncState, path: &str) -> (XsWatchToken, flume::Receiver<String>) {
    let (out, events, mut result) = subscribe(state, path);
    match answer(state, XsMessageType::Watch, out.request_id, b"OK\0") {
        XsDelivery::Subscription(channel, outcome) => channel.send(outcome).unwrap(),
        other => panic!("{:?}", other),
    }
    (result.try_recv().unwrap().unwrap().unwrap(), events)
}

#[test]
fn responses_reach_their_clients() {
    let mut state = XsAsyncState::default();
    let (a, mut a_rx) = request(&mut state, "/a");
    let (b, mut b_rx) = request(&mut state, "/b");
    assert_ne!(a, b);
    for (id, payload) in [(b, b"bee"), (a, b"ant")] {
        match answer(&mut state, XsMessageType::Read, id, payload) {
            XsDelivery::Response(sender, response) => sender.send(response).unwrap(),
            other => panic!("{:?}", other),
        }
    }
    assert_eq!(a_rx.try_recv().unwrap().unwrap().payload, b"ant".to_vec());
    assert_eq!(b_rx.try_recv().unwrap().unwrap().payload, b"bee".to_vec());
}

#[test]
fn ids_in_flight_differ() {
    let mut state = XsAsyncState::default();
    let mut ids: Vec<u32> = Vec::new();
    let mut receivers = Vec::new();
    for _ in 0..50 {
        let (id, receiver) = request(&mut state, "/x");
        assert!(!ids.contains(&id));
        ids.push(id);
        receivers.push(receiver);
    }
}

#[test]
fn response_is_handed_on_once() {
    let mut state = XsAsyncState::default();
    let (id, _rx) = request(&mut state, "/a");
    assert!(matches!(answer(&mut state, XsMessageType::Read, id + 1, b""), XsDelivery::Nothing));
    assert!(matches!(
        answer(&mut state, XsMessageType::Error, id, b"EIO\0"),
        XsDelivery::Response(_, _)
    ));
    assert!(matches!(answer(&mut state, XsMessageType::Read, id, b""), XsDelivery::Nothing));
}

#[test]
fn subscription_names_path_and_token() {
    let mut state = XsAsyncState::default();
    let (out, _events, _result) = subscribe(&mut state, "/w");
    assert_eq!(out.msg_type, XsMessageType::Watch);
    assert_eq!(out.payload, b"/w\x000\0".to_vec());
    let (out, _events2, _result2) = subscribe(&mut state, "/v");
    assert_eq!(out.payload, b"/v\x001\0".to_vec());
}

#[test]
fn events_reach_their_watches() {
    let mut state = XsAsyncState::default();
    let (w, w_events) = confirmed(&mut state, "/w");
    let (v, v_events) = confirmed(&mut state, "/v");
    assert_ne!(w, v);
    for (token, path) in [(v, "/v/1"), (w, "/w/2")] {
        let payload = format!("{}\0{}\0", path, token.0).into_bytes();
        match answer(&mut state, XsMessageType::WatchEvent, 0, &payload) {
            XsDelivery::Event(t, p) => {
                assert_eq!(t, token);
                state.event_sender(t).unwrap().send(p).unwrap();
            }
            other => panic!("{:?}", other),
        }
    }
    assert_eq!(w_events.try_iter().collect::<Vec<_>>(), vec!["/w/2"]);
    assert_eq!(v_events.try_iter().collect::<Vec<_>>(), vec!["/v/1"]);
}

#[test]
fn event_with_the_id_of_a_request_is_no_response() {
    let mut state = XsAsyncState::default();
    let (id, _rx) = request(&mut state, "/a");
    assert!(matches!(
        answer(&mut state, XsMessageType::WatchEvent, id, b"/w\x009\0"),
        XsDelivery::Nothing
    ));
    assert!(matches!(
        answer(&mut state, XsMessageType::Read, id, b"v"),
        XsDelivery::Response(_, _)
    ));
}

#[test]
fn garbled_events_are_left_alone() {
    let mut state = XsAsyncState::default();
    let (_token, _events) = confirmed(&mut state, "/w");
    for payload in [&b""[..], b"/w\0", b"/w\0x\0", b"\xff\x000\0", b"/w\x001\0"] {
        assert!(matches!(
            answer(&mut state, XsMessageType::WatchEvent, 0, payload),
            XsDelivery::Nothing
        ));
    }
    assert!(matches!(
        answer(&mut state, XsMessageType::WatchEvent, 0, b"/w\x000\0extra\0"),
        XsDelivery::Event(XsWatchToken(0), _)
    ));
}

#[test]
fn refused_subscription() {
    let mut state = XsAsyncState::default();
    let (out, _events, _result) = subscribe(&mut state, "/w");
    match answer(&mut state, XsMessageType::Error, out.request_id, b"EACCES\0") {
        XsDelivery::Subscription(_, Err(XsError::Refused(reason))) => assert_eq!(reason, "EACCES"),
        other => panic!("{:?}", other),
    }
    assert!(state.event_sender(XsWatchToken(0)).is_none());
    let (out, _events, _result) = subscribe(&mut state, "/w");
    assert!(matches!(
        answer(&mut state, XsMessageType::Read, out.request_id, b""),
        XsDelivery::Subscription(_, Err(XsError::UnrelatedResponse(XsMessageType::Read)))
    ));
}

#[test]
fn given_up_watch_is_silent() {
    let mut state = XsAsyncState::default();
    let (w, _w_events) = confirmed(&mut state, "/w");
    let (v, _v_events) = confirmed(&mut state, "/v");
    let out = state.on_client(XsAsyncMessage::WatchUnsubscribe(w)).unwrap();
    assert_eq!(out.msg_type, XsMessageType::Unwatch);
    assert_eq!(out.payload, b"/w\x000\0".to_vec());
    assert!(state.event_sender(w).is_none());
    assert!(state.event_sender(v).is_some());
    assert!(matches!(
        answer(&mut state, XsMessageType::WatchEvent, 0, b"/w\x000\0"),
        XsDelivery::Nothing
    ));
    assert!(state.on_client(XsAsyncMessage::WatchUnsubscribe(w)).is_none());
    let (taken, _e, _r) = subscribe(&mut state, "/u");
    assert_eq!(taken.payload, b"/u\x002\0".to_vec());
    assert!(matches!(
        answer(&mut state, XsMessageType::Unwatch, out.request_id, b"OK\0"),
        XsDelivery::Nothing
    ));
    let (reused, _e2, _r2) = subscribe(&mut state, "/t");
    assert_eq!(reused.payload, b"/t\x000\0".to_vec());
}

#[test]
fn undelivered_subscription_is_given_up() {
    let mut state = XsAsyncState::default();
    let (out, events, result) = subscribe(&mut state, "/w");
    drop(events);
    drop(result);
    let outcome = match answer(&mut state, XsMessageType::Watch, out.request_id, b"OK\0") {
        XsDelivery::Subscription(channel, outcome) => channel.send(outcome).unwrap_err(),
        other => panic!("{:?}", other),
    };
    let out = state.on_undelivered(outcome).unwrap();
    assert_eq!(out.msg_type, XsMessageType::Unwatch);
    assert!(state.event_sender(XsWatchToken(0)).is_none());
    assert!(state.on_undelivered(Err(XsError::NoResponse)).is_none());
    assert!(state.on_client(XsAsyncMessage::WatchUnsubscribe(XsWatchToken(77))).is_none());
}

#[test]
fn watch_cannot_be_given_up_before_it_is_accepted() {
    let mut state = XsAsyncState::default();
    let (out, _events, _result) = subscribe(&mut state, "/w");
    assert!(state.on_client(XsAsyncMessage::WatchUnsubscribe(XsWatchToken(0))).is_none());
    assert!(state.event_sender(XsWatchToken(0)).is_some());
    assert!(matches!(
        answer(&mut state, XsMessageType::Watch, out.request_id, b"OK\0"),
        XsDelivery::Subscription(_, Ok(XsWatchToken(0)))
    ));
    assert!(state.on_client(XsAsyncMessage::WatchUnsubscribe(XsWatchToken(0))).is_some());
}

#[test]
fn serving_goes_on_while_both_sides_are_there() {
    let mut state = XsAsyncState::default();
    assert!(matches!(serve(&mut state, XsServeEvent::Started), XsServeAction::Wait));
    let (message, _rx) = XsAsyncImpl::request_message(XsAsyncImpl::rm_request("/a"));
    let sent = match serve(&mut state, XsServeEvent::FromClient(Some(message))) {
        XsServeAction::Write(request) => request,
        other => panic!("{:?}", other),
    };
    assert_eq!(sent.msg_type, XsMessageType::Rm);
    assert!(matches!(serve(&mut state, XsServeEvent::Written(true)), XsServeAction::Wait));
    let response = XsMessage::from_string(XsMessageType::Rm, sent.request_id, "OK");
    assert!(matches!(
        serve(&mut state, XsServeEvent::FromServer(Some(response))),
        XsServeAction::Deliver(XsDelivery::Response(_, _))
    ));
    assert!(matches!(serve(&mut state, XsServeEvent::Delivered), XsServeAction::Wait));
    let refused = XsServeEvent::Undelivered(Err(XsError::NoResponse));
    assert!(matches!(serve(&mut state, refused), XsServeAction::Wait));
    let (token, _events) = confirmed(&mut state, "/w");
    match serve(&mut state, XsServeEvent::Undelivered(Ok(token))) {
        XsServeAction::Write(request) => assert_eq!(request.msg_type, XsMessageType::Unwatch),
        other => panic!("{:?}", other),
    }
    let unknown = XsAsyncMessage::WatchUnsubscribe(XsWatchToken(40));
    assert!(matches!(
        serve(&mut state, XsServeEvent::FromClient(Some(unknown))),
        XsServeAction::Wait
    ));
}

#[test]
fn serving_stops_once_a_side_is_gone() {
    let mut state = XsAsyncState::default();
    assert!(matches!(serve(&mut state, XsServeEvent::FromClient(None)), XsServeAction::Stop));
    assert!(matches!(serve(&mut state, XsServeEvent::FromServer(None)), XsServeAction::Stop));
    assert!(matches!(serve(&mut state, XsServeEvent::Written(false)), XsServeAction::Stop));
}

#[test]
fn watches_go_silent_when_the_task_dies() {
    let mut state = XsAsyncState::default();
    let (_token, events) = confirmed(&mut state, "/w");
    let (_id, mut waiting) = request(&mut state, "/a");
    drop(state);
    assert!(waiting.try_recv().is_err());
    assert_eq!(XsAsyncWatch::poll_next(events.recv()), None);
}

#[test]
fn task_hands_responses_to_their_clients() {
    let mut state = XsAsyncState::default();
    let mut waiting = Vec::new();
    for path in ["/a", "/b"] {
        let (message, receiver) = XsAsyncImpl::request_message(XsAsyncImpl::read_request(path));
        match serve(&mut state, XsServeEvent::FromClient(Some(message))) {
            XsServeAction::Write(sent) => waiting.push((sent.request_id, receiver)),
            other => panic!("{:?}", other),
        }
        assert!(matches!(serve(&mut state, XsServeEvent::Written(true)), XsServeAction::Wait));
    }
    let (token, _events) = confirmed(&mut state, "/w");
    assert!(matches!(
        serve(&mut state, XsServeEvent::Undelivered(Ok(token))),
        XsServeAction::Write(_)
    ));
    assert_eq!((waiting[0].0, waiting[1].0), (0, 1));
    for (id, text) in [(1, "second"), (0, "first")] {
        let response = XsMessage::from_string(XsMessageType::Read, id, text);
        match serve(&mut state, XsServeEvent::FromServer(Some(response))) {
            XsServeAction::Deliver(XsDelivery::Response(sender, r)) => sender.send(r).unwrap(),
            other => panic!("{:?}", other),
        }
        assert!(matches!(serve(&mut state, XsServeEvent::Delivered), XsServeAction::Wait));
    }
    for ((_, mut receiver), payload) in waiting.into_iter().zip([&b"first\0"[..], b"second\0"]) {
        assert_eq!(receiver.try_recv().unwrap().unwrap().payload, payload.to_vec());
    }
}
