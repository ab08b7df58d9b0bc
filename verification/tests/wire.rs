use xenstore_async::error::{XsError, XsErrorKind};
use xenstore_async::text::{read_first, read_strings, write_strings};
use xenstore_async::wire::{XsHeader, XsMessage, XsMessageType, HEADER_LEN, XENBUS_DEVICE_PATH};

const ALL_TYPES: [(XsMessageType, u32, &str); 22] = [
    (XsMessageType::Control, 0, "Control"),
    (XsMessageType::Directory, 1, "Directory"),
    (XsMessageType::Read, 2, "Read"),
    (XsMessageType::GetPerms, 3, "GetPerms"),
    (XsMessageType::Watch, 4, "Watch"),
    (XsMessageType::Unwatch, 5, "Unwatch"),
    (XsMessageType::TransactionStart, 6, "TransactionStart"),
    (XsMessageType::TransactionEnd, 7, "TransactionEnd"),
    (XsMessageType::Introduce, 8, "Introduce"),
    (XsMessageType::Release, 9, "Release"),
    (XsMessageType::GetDomainPath, 10, "GetDomainPath"),
    (XsMessageType::Write, 11, "Write"),
    (XsMessageType::Mkdir, 12, "Mkdir"),
    (XsMessageType::Rm, 13, "Rm"),
    (XsMessageType::SetPerms, 14, "SetPerms"),
    (XsMessageType::WatchEvent, 15, "WatchEvent"),
    (XsMessageType::Error, 16, "Error"),
    (XsMessageType::IsDomainIntroduced, 17, "IsDomainIntroduced"),
    (XsMessageType::Resume, 18, "Resume"),
    (XsMessageType::SetTarget, 19, "SetTarget"),
    (XsMessageType::ResetWatches, 21, "ResetWatches"),
    (XsMessageType::DirectoryPart, 22, "DirectoryPart"),
];

fn message(msg_type: XsMessageType, payload: &[u8]) -> XsMessage {
    XsMessage { msg_type, request_id: 0, payload: payload.to_vec() }
}

#[test]
fn codes_and_names() {
    for (msg_type, code, name) in ALL_TYPES {
        assert_eq!(msg_type.code(), code);
        assert_eq!(XsMessageType::from_code(code), Some(msg_type));
        assert_eq!(msg_type.name(), name);
        assert_eq!(format!("{:?}", msg_type), name);
    }
    assert_eq!(XsMessageType::from_code(20), None);
    assert_eq!(XsMessageType::from_code(23), None);
    assert_eq!(XsMessageType::from_code(u32::MAX), None);
}

#[test]
fn one_string_is_nul_terminated() {
    let m = XsMessage::from_string(XsMessageType::Read, 7, "/local");
    assert_eq!(m.msg_type, XsMessageType::Read);
    assert_eq!(m.request_id, 7);
    assert_eq!(m.payload, b"/local\0".to_vec());
    assert_eq!(XsMessage::from_string(XsMessageType::Read, 0, "").payload, b"\0".to_vec());
}

#[test]
fn several_strings() {
    let open = XsMessage::from_string_slice(XsMessageType::Write, 1, &["a", "bc"], false);
    assert_eq!(open.payload, b"a\0bc".to_vec());
    let closed = XsMessage::from_string_slice(XsMessageType::Write, 1, &["a", "bc"], true);
    assert_eq!(closed.payload, b"a\0bc\0".to_vec());
    assert_eq!(write_strings(&[], true), Vec::<u8>::new());
    assert_eq!(write_strings(&[], false), Vec::<u8>::new());
    assert_eq!(write_strings(&["\u{e9}"], true), vec![0xc3, 0xa9, 0]);
}

#[test]
fn strings_come_back() {
    for strings in [vec!["a", "", "b\u{20ac}"], vec!["", ""], vec![], vec!["x"]] {
        let payload = write_strings(&strings, true);
        assert_eq!(read_strings(&payload).unwrap(), strings);
    }
    assert_eq!(read_strings(&write_strings(&["a", "b"], false)).unwrap(), vec!["a", "b"]);
    assert_eq!(read_strings(&write_strings(&["a", ""], false)).unwrap(), vec!["a"]);
}

#[test]
fn payload_lists() {
    let m = message(XsMessageType::Directory, b"one\0two\0");
    assert_eq!(m.parse_payload_list().unwrap(), vec!["one", "two"]);
    let m = message(XsMessageType::Directory, b"one\0\0two");
    assert_eq!(m.parse_payload_list().unwrap(), vec!["one", "", "two"]);
    let m = message(XsMessageType::Directory, b"");
    assert!(m.parse_payload_list().unwrap().is_empty());
    let m = message(XsMessageType::Directory, b"one\0\xff\0");
    assert!(matches!(m.parse_payload_list(), Err(XsError::InvalidUtf8)));
}

#[test]
fn payload_strings() {
    let m = message(XsMessageType::Read, b"value");
    assert_eq!(m.parse_payload_str().unwrap(), Some("value".to_string()));
    let m = message(XsMessageType::Read, b"value\0\xff");
    assert_eq!(m.parse_payload_str().unwrap(), Some("value".to_string()));
    let m = message(XsMessageType::Read, b"\0");
    assert_eq!(m.parse_payload_str().unwrap(), Some(String::new()));
    let m = message(XsMessageType::Read, b"");
    assert_eq!(m.parse_payload_str().unwrap(), None);
    let m = message(XsMessageType::Read, b"\xe2\x82");
    assert!(matches!(m.parse_payload_str(), Err(XsError::InvalidUtf8)));
    assert_eq!(read_first(&b"\xe2\x82\xac\0".to_vec()).unwrap(), "\u{20ac}");
}

#[test]
fn error_responses() {
    let refused = message(XsMessageType::Error, b"ENOENT\0").parse_error();
    assert_eq!(refused.message(), "ENOENT");
    assert_eq!(refused.kind(), XsErrorKind::Other);
    assert_eq!(message(XsMessageType::Error, b"").parse_error().message(), "");
    let garbled = message(XsMessageType::Error, b"\xff").parse_error();
    assert!(matches!(garbled, XsError::InvalidUtf8));
}

#[test]
fn framing() {
    let m = XsMessage { msg_type: XsMessageType::Write, request_id: 0x0102, payload: b"p\0q".to_vec() };
    let bytes = m.encode().unwrap();
    assert_eq!(
        bytes,
        vec![11, 0, 0, 0, 2, 1, 0, 0, 0, 0, 0, 0, 3, 0, 0, 0, b'p', 0, b'q']
    );
    let header = XsHeader::decode(&bytes[..HEADER_LEN]).unwrap();
    assert_eq!(
        header,
        XsHeader { msg_type: XsMessageType::Write, request_id: 0x0102, payload_len: 3 }
    );
    assert_eq!(&bytes[HEADER_LEN..], b"p\0q");
}

#[test]
fn bad_headers() {
    assert!(matches!(XsHeader::decode(&[0; 15]), Err(XsError::TruncatedHeader)));
    assert!(matches!(XsHeader::decode(&[0; 17]), Err(XsError::TruncatedHeader)));
    let mut bytes = [0u8; 16];
    bytes[0] = 20;
    assert!(matches!(XsHeader::decode(&bytes), Err(XsError::UnknownMessageType(20))));
    bytes[3] = 1;
    assert!(matches!(XsHeader::decode(&bytes), Err(XsError::UnknownMessageType(0x0100_0014))));
}

#[test]
fn error_messages() {
    let errors = [
        (XsError::NotSent, XsErrorKind::BrokenPipe, "sending on a closed channel"),
        (XsError::NoResponse, XsErrorKind::BrokenPipe, "oneshot canceled"),
        (XsError::Refused("EACCES".to_string()), XsErrorKind::Other, "EACCES"),
        (
            XsError::UnrelatedResponse(XsMessageType::Rm),
            XsErrorKind::InvalidData,
            "Got unrelated response (Rm)",
        ),
        (XsError::InvalidUtf8, XsErrorKind::InvalidData, "invalid utf-8"),
        (XsError::UnknownMessageType(40), XsErrorKind::InvalidData, "Unknown message type (40)"),
        (XsError::TruncatedHeader, XsErrorKind::InvalidData, "Truncated message header"),
        (
            XsError::InvalidPermission("x1".to_string()),
            XsErrorKind::Other,
            "Invalid permission (x1)",
        ),
    ];
    for (error, kind, text) in errors {
        assert_eq!(error.kind(), kind);
        assert_eq!(error.message(), text);
    }
}

#[test]
fn closed_channels_say_the_same() {
    let (sender, receiver) = flume::unbounded::<u8>();
    drop(receiver);
    assert_eq!(format!("{}", sender.send(1).unwrap_err()), XsError::NotSent.message());
    let (sender, mut receiver) = futures::channel::oneshot::channel::<u8>();
    drop(sender);
    assert_eq!(format!("{}", receiver.try_recv().unwrap_err()), XsError::NoResponse.message());
}

#[test]
fn device_path() {
    assert_eq!(XENBUS_DEVICE_PATH, "/dev/xen/xenbus");
}
