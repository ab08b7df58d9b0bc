use xenstore_async::device::{WriteAttempt, WritePoll, XsDevice};
use xenstore_async::interface::{XsAsyncMessage, XsWatchToken};
use xenstore_async::open::{
    device_tried, socket_tried, XsConnection, XsOpenStep, XsSmol, XsTokio, DEFAULT_SOCKET_PATH,
};
use xenstore_async::task::{
    carry, launch_xenstore_task, run_xenstore_task, XenstoreTask, XsCarryAction, XsCarryEvent,
    XsCarryFailure, XsDirection,
};
use xenstore_async::wire::{XsMessage, XsMessageType};

fn numbered(id: u32) -> XsMessage {
    XsMessage { msg_type: XsMessageType::Read, request_id: id, payload: Vec::new() }
}

fn check_wiring(task: XenstoreTask) {
    assert_eq!(task.response_tx.capacity(), Some(4));
    assert_eq!(task.xs_sender.capacity(), Some(4));
    assert_eq!(task.client.sender().capacity(), None);
    task.response_tx.try_send(numbered(1)).unwrap();
    task.xs_sender.try_send(numbered(2)).unwrap();
    task.client.sender().try_send(XsAsyncMessage::WatchUnsubscribe(XsWatchToken(3))).unwrap();
    assert_eq!(task.xs_receiver.try_recv().unwrap().request_id, 1);
    assert!(task.xs_receiver.is_empty());
    assert_eq!(task.request_rx.try_recv().unwrap().request_id, 2);
    assert!(task.request_rx.is_empty());
    assert!(matches!(
        task.xs_async_rx.try_recv(),
        Ok(XsAsyncMessage::WatchUnsubscribe(XsWatchToken(3)))
    ));
    assert!(task.state.event_sender(XsWatchToken(0)).is_none());
}

#[test]
fn tasks_are_wired() {
    check_wiring(run_xenstore_task().unwrap());
    check_wiring(launch_xenstore_task().unwrap());
}

fn run(direction: XsDirection, taken: Vec<Option<XsMessage>>, put: Vec<bool>) -> (Vec<u32>, Option<XsCarryFailure>) {
    let mut taken = taken.into_iter();
    let mut put = put.into_iter();
    let mut carried = Vec::new();
    let mut event = XsCarryEvent::Started;
    loop {
        event = match carry(direction, event) {
            XsCarryAction::Take => XsCarryEvent::Taken(taken.next().unwrap()),
            XsCarryAction::Put(m) => {
                carried.push(m.request_id);
                XsCarryEvent::Put(put.next().unwrap())
            }
            XsCarryAction::Stop(failure) => return (carried, failure),
        };
    }
}

#[test]
fn messages_are_carried_in_order() {
    let taken = || vec![Some(numbered(5)), Some(numbered(3)), Some(numbered(5)), None];
    let all = vec![true, true, true];
    assert_eq!(run(XsDirection::Receive, taken(), all.clone()), (vec![5, 3, 5], Some(XsCarryFailure::Read)));
    assert_eq!(run(XsDirection::Send, taken(), all), (vec![5, 3, 5], None));
}

#[test]
fn carrying_stops_where_a_message_cannot_be_put_down() {
    let taken = || vec![Some(numbered(1)), Some(numbered(2)), Some(numbered(3))];
    let put = vec![true, false, true];
    assert_eq!(run(XsDirection::Receive, taken(), put.clone()), (vec![1, 2], Some(XsCarryFailure::Read)));
    assert_eq!(run(XsDirection::Send, taken(), put), (vec![1, 2], Some(XsCarryFailure::Write)));
}

type Step = XsOpenStep<u8, char, std::io::Error>;

fn io_error(kind: std::io::ErrorKind) -> std::io::Error {
    std::io::Error::from(kind)
}

#[test]
fn socket_comes_first() {
    assert_eq!(DEFAULT_SOCKET_PATH, "/run/xenstored/socket");
    let steps: [Step; 2] = [XsTokio::new(None), XsSmol::new(None)];
    for step in steps {
        match step {
            XsOpenStep::ConnectSocket(path) => assert_eq!(path, "/run/xenstored/socket"),
            other => panic!("{:?}", other),
        }
    }
    let configured = || Some("/tmp/xs".to_string());
    let steps: [Step; 2] = [XsTokio::new(configured()), XsSmol::new(configured())];
    for step in steps {
        match step {
            XsOpenStep::ConnectSocket(path) => assert_eq!(path, "/tmp/xs"),
            other => panic!("{:?}", other),
        }
    }
    let step: Step = socket_tried(Ok(3));
    assert!(matches!(step, XsOpenStep::Launch(XsConnection::Socket(3))));
}

#[test]
fn device_comes_second() {
    let step: Step = socket_tried(Err(io_error(std::io::ErrorKind::ConnectionRefused)));
    assert!(matches!(step, XsOpenStep::OpenDevice));
    let step: Step = device_tried(Ok('d'));
    assert!(matches!(step, XsOpenStep::Launch(XsConnection::Device('d'))));
}

#[test]
fn error_of_the_device_is_reported() {
    let mut step: Step = XsTokio::new(None);
    let error = loop {
        step = match step {
            XsOpenStep::ConnectSocket(_) => {
                socket_tried(Err(io_error(std::io::ErrorKind::ConnectionRefused)))
            }
            XsOpenStep::OpenDevice => device_tried(Err(io_error(std::io::ErrorKind::NotFound))),
            XsOpenStep::Launch(connection) => panic!("{:?}", connection),
            XsOpenStep::Fail(error) => break error,
        };
    };
    assert_eq!(error.kind(), std::io::ErrorKind::NotFound);
}

#[test]
fn device_is_opened_both_ways() {
    let device = XsDevice::new();
    assert_eq!(device.path, "/dev/xen/xenbus");
    assert!(device.read && device.write);
}

#[test]
fn write_that_would_block_is_tried_again() {
    let attempts = vec![
        WriteAttempt::WouldBlock,
        WriteAttempt::WouldBlock,
        WriteAttempt::Finished(Ok::<usize, &str>(7)),
        WriteAttempt::Finished(Err("later")),
    ];
    let mut tried = 0;
    let mut result = None;
    for attempt in attempts {
        tried += 1;
        match XsDevice::poll_write(attempt) {
            WritePoll::Again => {}
            WritePoll::Ready(r) => {
                result = Some(r);
                break;
            }
        }
    }
    assert_eq!((tried, result), (3, Some(Ok(7))));
    assert!(matches!(
        XsDevice::poll_write(WriteAttempt::Finished(Err::<usize, &str>("broken"))),
        WritePoll::Ready(Err("broken"))
    ));
}
