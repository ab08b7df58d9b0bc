//! Xenstore messages: their types, payloads and framing.

use vstd::bytes::{
    lemma_auto_spec_u32_to_from_le_bytes, spec_u32_from_le_bytes, spec_u32_to_le_bytes,
    u32_from_le_bytes, u32_to_le_bytes,
};
use vstd::prelude::*;
use vstd::slice::slice_subrange;
use vstd::utf8::{decode_utf8, valid_utf8};

use crate::error::XsError;
use crate::text::{
    all_utf8, decode_all, first_piece, join_nul, read_first, read_strings, split_nul, str_views,
    views, write_strings,
};

verus! {

/// The device through which a guest reaches Xenstore.
pub const XENBUS_DEVICE_PATH: &'static str = "/dev/xen/xenbus";

/// The length of the header in front of every payload.
pub const HEADER_LEN: usize = 16;

/// What a Xenstore message is about.
#[derive(Clone, Copy, Debug, PartialEq, Eq, Structural)]
pub enum XsMessageType {
    Control,
    Directory,
    Read,
    GetPerms,
    Watch,
    Unwatch,
    TransactionStart,
    TransactionEnd,
    Introduce,
    Release,
    GetDomainPath,
    Write,
    Mkdir,
    Rm,
    SetPerms,
    WatchEvent,
    Error,
    IsDomainIntroduced,
    Resume,
    SetTarget,
    ResetWatches,
    DirectoryPart,
}

impl XsMessageType {
    /// The number that stands for this type in a header.
    pub open spec fn spec_code(self) -> u32 {
        match self {
            XsMessageType::Control => 0,
            XsMessageType::Directory => 1,
            XsMessageType::Read => 2,
            XsMessageType::GetPerms => 3,
            XsMessageType::Watch => 4,
            XsMessageType::Unwatch => 5,
            XsMessageType::TransactionStart => 6,
            XsMessageType::TransactionEnd => 7,
            XsMessageType::Introduce => 8,
            XsMessageType::Release => 9,
            XsMessageType::GetDomainPath => 10,
            XsMessageType::Write => 11,
            XsMessageType::Mkdir => 12,
            XsMessageType::Rm => 13,
            XsMessageType::SetPerms => 14,
            XsMessageType::WatchEvent => 15,
            XsMessageType::Error => 16,
            XsMessageType::IsDomainIntroduced => 17,
            XsMessageType::Resume => 18,
            XsMessageType::SetTarget => 19,
            XsMessageType::ResetWatches => 21,
            XsMessageType::DirectoryPart => 22,
        }
    }

    /// Returns the number that stands for this type in a header.
    pub fn code(self) -> (code: u32)
        ensures
            code == self.spec_code(),
    {
        match self {
            XsMessageType::Control => 0,
            XsMessageType::Directory => 1,
            XsMessageType::Read => 2,
            XsMessageType::GetPerms => 3,
            XsMessageType::Watch => 4,
            XsMessageType::Unwatch => 5,
            XsMessageType::TransactionStart => 6,
            XsMessageType::TransactionEnd => 7,
            XsMessageType::Introduce => 8,
            XsMessageType::Release => 9,
            XsMessageType::GetDomainPath => 10,
            XsMessageType::Write => 11,
            XsMessageType::Mkdir => 12,
            XsMessageType::Rm => 13,
            XsMessageType::SetPerms => 14,
            XsMessageType::WatchEvent => 15,
            XsMessageType::Error => 16,
            XsMessageType::IsDomainIntroduced => 17,
            XsMessageType::Resume => 18,
            XsMessageType::SetTarget => 19,
            XsMessageType::ResetWatches => 21,
            XsMessageType::DirectoryPart => 22,
        }
    }

    /// Returns the type that a number stands for, `None` where it stands for none.
    pub fn from_code(code: u32) -> (msg_type: Option<XsMessageType>)
        ensures
            msg_type matches Some(t) ==> t.spec_code() == code,
            msg_type is None ==> forall|t: XsMessageType| t.spec_code() != code,
    {
        match code {
            0 => Some(XsMessageType::Control),
            1 => Some(XsMessageType::Directory),
            2 => Some(XsMessageType::Read),
            3 => Some(XsMessageType::GetPerms),
            4 => Some(XsMessageType::Watch),
            5 => Some(XsMessageType::Unwatch),
            6 => Some(XsMessageType::TransactionStart),
            7 => Some(XsMessageType::TransactionEnd),
            8 => Some(XsMessageType::Introduce),
            9 => Some(XsMessageType::Release),
            10 => Some(XsMessageType::GetDomainPath),
            11 => Some(XsMessageType::Write),
            12 => Some(XsMessageType::Mkdir),
            13 => Some(XsMessageType::Rm),
            14 => Some(XsMessageType::SetPerms),
            15 => Some(XsMessageType::WatchEvent),
            16 => Some(XsMessageType::Error),
            17 => Some(XsMessageType::IsDomainIntroduced),
            18 => Some(XsMessageType::Resume),
            19 => Some(XsMessageType::SetTarget),
            21 => Some(XsMessageType::ResetWatches),
            22 => Some(XsMessageType::DirectoryPart),
            _ => None,
        }
    }

    /// The name of this type.
    pub open spec fn spec_name(self) -> Seq<char> {
        match self {
            XsMessageType::Control => "Control"@,
            XsMessageType::Directory => "Directory"@,
            XsMessageType::Read => "Read"@,
            XsMessageType::GetPerms => "GetPerms"@,
            XsMessageType::Watch => "Watch"@,
            XsMessageType::Unwatch => "Unwatch"@,
            XsMessageType::TransactionStart => "TransactionStart"@,
            XsMessageType::TransactionEnd => "TransactionEnd"@,
            XsMessageType::Introduce => "Introduce"@,
            XsMessageType::Release => "Release"@,
            XsMessageType::GetDomainPath => "GetDomainPath"@,
            XsMessageType::Write => "Write"@,
            XsMessageType::Mkdir => "Mkdir"@,
            XsMessageType::Rm => "Rm"@,
            XsMessageType::SetPerms => "SetPerms"@,
            XsMessageType::WatchEvent => "WatchEvent"@,
            XsMessageType::Error => "Error"@,
            XsMessageType::IsDomainIntroduced => "IsDomainIntroduced"@,
            XsMessageType::Resume => "Resume"@,
            XsMessageType::SetTarget => "SetTarget"@,
            XsMessageType::ResetWatches => "ResetWatches"@,
            XsMessageType::DirectoryPart => "DirectoryPart"@,
        }
    }

    /// Returns the name of this type.
    pub fn name(self) -> (name: &'static str)
        ensures
            name@ == self.spec_name(),
    {
        match self {
            XsMessageType::Control => "Control",
            XsMessageType::Directory => "Directory",
            XsMessageType::Read => "Read",
            XsMessageType::GetPerms => "GetPerms",
            XsMessageType::Watch => "Watch",
            XsMessageType::Unwatch => "Unwatch",
            XsMessageType::TransactionStart => "TransactionStart",
            XsMessageType::TransactionEnd => "TransactionEnd",
            XsMessageType::Introduce => "Introduce",
            XsMessageType::Release => "Release",
            XsMessageType::GetDomainPath => "GetDomainPath",
            XsMessageType::Write => "Write",
            XsMessageType::Mkdir => "Mkdir",
            XsMessageType::Rm => "Rm",
            XsMessageType::SetPerms => "SetPerms",
            XsMessageType::WatchEvent => "WatchEvent",
            XsMessageType::Error => "Error",
            XsMessageType::IsDomainIntroduced => "IsDomainIntroduced",
            XsMessageType::Resume => "Resume",
            XsMessageType::SetTarget => "SetTarget",
            XsMessageType::ResetWatches => "ResetWatches",
            XsMessageType::DirectoryPart => "DirectoryPart",
        }
    }
}

/// One Xenstore message, request or response.
#[derive(Clone, Debug)]
pub struct XsMessage {
    pub msg_type: XsMessageType,
    pub request_id: u32,
    pub payload: Vec<u8>,
}

/// The payload that holds one string with a NUL byte behind it.
pub open spec fn string_payload(text: Seq<char>) -> Seq<u8> {
    join_nul(seq![text], true)
}

impl XsMessage {
    /// Builds a message around one NUL-terminated string.
    pub fn from_string(msg_type: XsMessageType, request_id: u32, string: &str) -> (message: Self)
        ensures
            message.msg_type == msg_type,
            message.request_id == request_id,
            message.payload@ == string_payload(string@),
    {
        let strings: [&str; 1] = [string];
        assert(str_views(strings@) =~= seq![string@]);
        XsMessage { msg_type, request_id, payload: write_strings(&strings, true) }
    }

    /// Builds a message around several strings with a NUL byte between any two of them, and one
    /// behind the last where `nul_terminated` asks for it.
    pub fn from_string_slice(
        msg_type: XsMessageType,
        request_id: u32,
        strings: &[&str],
        nul_terminated: bool,
    ) -> (message: Self)
        ensures
            message.msg_type == msg_type,
            message.request_id == request_id,
            message.payload@ == join_nul(str_views(strings@), nul_terminated),
    {
        XsMessage { msg_type, request_id, payload: write_strings(strings, nul_terminated) }
    }

    /// Reads the strings that the payload holds.
    pub fn parse_payload_list(&self) -> (list: Result<Vec<String>, XsError>)
        ensures
            list is Ok <==> all_utf8(split_nul(self.payload@)),
            list matches Ok(strings) ==> views(strings@) == decode_all(split_nul(self.payload@)),
            list matches Err(e) ==> e is InvalidUtf8,
    {
        match read_strings(&self.payload) {
            Some(strings) => Ok(strings),
            None => Err(XsError::InvalidUtf8),
        }
    }

    /// Reads the first string of the payload; an empty payload holds none.
    pub fn parse_payload_str(&self) -> (text: Result<Option<String>, XsError>)
        ensures
            text is Ok <==> valid_utf8(first_piece(self.payload@)),
            text matches Ok(found) ==> (found is None <==> self.payload@.len() == 0),
            text matches Ok(Some(s)) ==> s@ == decode_utf8(first_piece(self.payload@)),
            text matches Err(e) ==> e is InvalidUtf8,
    {
        match read_first(&self.payload) {
            Some(text) => if self.payload.len() == 0 {
                Ok(None)
            } else {
                Ok(Some(text))
            },
            None => Err(XsError::InvalidUtf8),
        }
    }

    /// Reads what an error response says.
    pub fn parse_error(&self) -> (error: XsError)
        ensures
            error_of(self.payload@, error),
    {
        match self.parse_payload_str() {
            Ok(Some(reason)) => XsError::Refused(reason),
            Ok(None) => {
                assert(first_piece(self.payload@) =~= Seq::empty());
                XsError::Refused(String::new())
            },
            Err(e) => e,
        }
    }

    /// The bytes of this message: the header, then the payload.
    pub open spec fn spec_encode(&self) -> Seq<u8> {
        spec_u32_to_le_bytes(self.msg_type.spec_code()) + spec_u32_to_le_bytes(self.request_id)
            + spec_u32_to_le_bytes(0) + spec_u32_to_le_bytes(self.payload@.len() as u32)
            + self.payload@
    }

    /// Returns the bytes of this message, `None` where the payload is longer than a header can
    /// say.
    pub fn encode(&self) -> (bytes: Option<Vec<u8>>)
        ensures
            bytes is Some <==> self.payload@.len() <= u32::MAX,
            bytes matches Some(b) ==> b@ == self.spec_encode(),
    {
        let length = self.payload.len();
        if length as u64 > u32::MAX as u64 {
            return None;
        }
        let mut bytes: Vec<u8> = u32_to_le_bytes(self.msg_type.code());
        let mut request_id: Vec<u8> = u32_to_le_bytes(self.request_id);
        let mut transaction: Vec<u8> = u32_to_le_bytes(0);
        let mut payload_len: Vec<u8> = u32_to_le_bytes(length as u32);
        bytes.append(&mut request_id);
        bytes.append(&mut transaction);
        bytes.append(&mut payload_len);
        let ghost header = bytes@;
        let mut i: usize = 0;
        while i < self.payload.len()
            invariant
                i <= self.payload@.len(),
                bytes@ == header + self.payload@.take(i as int),
            decreases self.payload@.len() - i,
        {
            bytes.push(self.payload[i]);
            i = i + 1;
        }
        assert(bytes@ =~= self.spec_encode());
        Some(bytes)
    }
}

/// True if `error` is what an error response with this payload says: the refusal in its first
/// string, or that this string is not UTF-8.
pub open spec fn error_of(payload: Seq<u8>, error: XsError) -> bool {
    if valid_utf8(first_piece(payload)) {
        error matches XsError::Refused(reason) && reason@ == decode_utf8(first_piece(payload))
    } else {
        error is InvalidUtf8
    }
}

/// The header in front of a payload.
#[derive(Clone, Copy, Debug, PartialEq, Eq, Structural)]
pub struct XsHeader {
    pub msg_type: XsMessageType,
    pub request_id: u32,
    pub payload_len: u32,
}

/// The number that stands at a given place of a header.
pub open spec fn header_field(bytes: Seq<u8>, index: int) -> u32 {
    spec_u32_from_le_bytes(bytes.subrange(4 * index, 4 * index + 4))
}

impl XsHeader {
    /// Reads a header.
    pub fn decode(bytes: &[u8]) -> (header: Result<XsHeader, XsError>)
        ensures
            header matches Ok(h) ==> {
                &&& bytes@.len() == HEADER_LEN
                &&& h.msg_type.spec_code() == header_field(bytes@, 0)
                &&& h.request_id == header_field(bytes@, 1)
                &&& h.payload_len == header_field(bytes@, 3)
            },
            header matches Err(e) ==> {
                ||| e is TruncatedHeader && bytes@.len() != HEADER_LEN
                ||| {
                    &&& bytes@.len() == HEADER_LEN
                    &&& e == XsError::UnknownMessageType(header_field(bytes@, 0))
                    &&& forall|t: XsMessageType| t.spec_code() != header_field(bytes@, 0)
                }
            },
    {
        if bytes.len() != HEADER_LEN {
            return Err(XsError::TruncatedHeader);
        }
        let code = u32_from_le_bytes(slice_subrange(bytes, 0, 4));
        let request_id = u32_from_le_bytes(slice_subrange(bytes, 4, 8));
        let payload_len = u32_from_le_bytes(slice_subrange(bytes, 12, 16));
        match XsMessageType::from_code(code) {
            Some(msg_type) => Ok(XsHeader { msg_type, request_id, payload_len }),
            None => Err(XsError::UnknownMessageType(code)),
        }
    }
}

/// A header reads back as it was written: the first bytes of an encoded message hold its type,
/// its request id and the length of its payload, and the rest is the payload.
pub proof fn law_framing_round_trip(message: XsMessage)
    requires
        message.payload@.len() <= u32::MAX,
    ensures
        message.spec_encode().len() == HEADER_LEN + message.payload@.len(),
        header_field(message.spec_encode().take(HEADER_LEN as int), 0)
            == message.msg_type.spec_code(),
        header_field(message.spec_encode().take(HEADER_LEN as int), 1) == message.request_id,
        header_field(message.spec_encode().take(HEADER_LEN as int), 3) == message.payload@.len(),
        message.spec_encode().skip(HEADER_LEN as int) == message.payload@,
{
    lemma_auto_spec_u32_to_from_le_bytes();
    let bytes = message.spec_encode();
    let header = bytes.take(HEADER_LEN as int);
    let code = spec_u32_to_le_bytes(message.msg_type.spec_code());
    let request_id = spec_u32_to_le_bytes(message.request_id);
    let zero = spec_u32_to_le_bytes(0);
    let payload_len = spec_u32_to_le_bytes(message.payload@.len() as u32);
    assert(header.subrange(0, 4) =~= code);
    assert(header.subrange(4, 8) =~= request_id);
    assert(header.subrange(12, 16) =~= payload_len);
    assert(bytes.skip(HEADER_LEN as int) =~= message.payload@);
}

/// No two message types share a number.
pub proof fn law_codes_distinct(a: XsMessageType, b: XsMessageType)
    requires
        a.spec_code() == b.spec_code(),
    ensures
        a == b,
{
}

/// What goes over the wire for a message is its type, its id, no transaction and the length of its
/// payload, as little-endian numbers of four bytes each, and then the payload, all of it. Only a
/// payload longer than such a number can say is turned down.
pub proof fn law_message_is_written_whole(message: XsMessage, bytes: Option<Vec<u8>>)
    requires
        call_ensures(XsMessage::encode, (&message,), bytes),
    ensures
        bytes is None <==> message.payload@.len() > u32::MAX,
        bytes matches Some(b) ==> {
            &&& b@.len() == 16 + message.payload@.len()
            &&& spec_u32_from_le_bytes(b@.subrange(0, 4)) == message.msg_type.spec_code()
            &&& spec_u32_from_le_bytes(b@.subrange(4, 8)) == message.request_id
            &&& spec_u32_from_le_bytes(b@.subrange(8, 12)) == 0
            &&& spec_u32_from_le_bytes(b@.subrange(12, 16)) == message.payload@.len()
            &&& b@.skip(16) == message.payload@
        },
{
    lemma_auto_spec_u32_to_from_le_bytes();
    if let Some(b) = bytes {
        let code = spec_u32_to_le_bytes(message.msg_type.spec_code());
        let request_id = spec_u32_to_le_bytes(message.request_id);
        let zero = spec_u32_to_le_bytes(0);
        let payload_len = spec_u32_to_le_bytes(message.payload@.len() as u32);
        assert(b@.subrange(0, 4) =~= code);
        assert(b@.subrange(4, 8) =~= request_id);
        assert(b@.subrange(8, 12) =~= zero);
        assert(b@.subrange(12, 16) =~= payload_len);
        assert(b@.skip(16) =~= message.payload@);
    }
}

/// A header is read exactly if it is sixteen bytes long and its first number stands for a message
/// type. What is read is that type and the second and the fourth of its little-endian numbers, and
/// a number that stands for no type is reported as it is.
pub proof fn law_header_is_read_by_its_numbers(
    bytes: &[u8],
    header: Result<XsHeader, XsError>,
)
    requires
        call_ensures(XsHeader::decode, (bytes,), header),
    ensures
        header matches Ok(h) ==> {
            &&& bytes@.len() == 16
            &&& h.msg_type.spec_code() == spec_u32_from_le_bytes(bytes@.subrange(0, 4))
            &&& h.request_id == spec_u32_from_le_bytes(bytes@.subrange(4, 8))
            &&& h.payload_len == spec_u32_from_le_bytes(bytes@.subrange(12, 16))
        },
        bytes@.len() == 16 ==> (header is Ok <==> exists|t: XsMessageType| #[trigger]
            t.spec_code() == spec_u32_from_le_bytes(bytes@.subrange(0, 4))),
        header matches Err(e) ==> {
            &&& bytes@.len() != 16 ==> e is TruncatedHeader
            &&& bytes@.len() == 16 ==> e == XsError::UnknownMessageType(
                spec_u32_from_le_bytes(bytes@.subrange(0, 4)),
            )
        },
{
    if let Ok(h) = header {
        assert(h.msg_type.spec_code() == spec_u32_from_le_bytes(bytes@.subrange(0, 4)));
    }
}

/// Every message comes off the wire as it was put on it: from the first sixteen bytes of what was
/// written, its type, its id and the length of its payload are read, and the payload follows.
pub proof fn law_message_comes_back(
    message: XsMessage,
    bytes: Vec<u8>,
    front: &[u8],
    header: Result<XsHeader, XsError>,
)
    requires
        call_ensures(XsMessage::encode, (&message,), Some(bytes)),
        front@ == bytes@.take(16),
        call_ensures(XsHeader::decode, (front,), header),
    ensures
        header matches Ok(h) && h.msg_type == message.msg_type && h.request_id
            == message.request_id && h.payload_len == message.payload@.len(),
        bytes@.skip(16) == message.payload@,
{
    law_message_is_written_whole(message, Some(bytes));
    law_header_is_read_by_its_numbers(front, header);
    assert(front@.subrange(0, 4) =~= bytes@.subrange(0, 4));
    assert(front@.subrange(4, 8) =~= bytes@.subrange(4, 8));
    assert(front@.subrange(12, 16) =~= bytes@.subrange(12, 16));
    assert(header is Ok) by {
        assert(message.msg_type.spec_code() == spec_u32_from_le_bytes(front@.subrange(0, 4)));
    }
    law_codes_distinct(header->Ok_0.msg_type, message.msg_type);
}

/// The number of a message type leads back to it, and no other number does.
pub proof fn law_code_leads_to_its_type(
    code: u32,
    msg_type: Option<XsMessageType>,
    other: XsMessageType,
    other_code: u32,
)
    requires
        call_ensures(XsMessageType::from_code, (code,), msg_type),
        call_ensures(XsMessageType::code, (other,), other_code),
    ensures
        code == other_code <==> msg_type == Some(other),
{
}

} // verus!
