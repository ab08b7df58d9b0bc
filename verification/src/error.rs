//! What can go wrong with a Xenstore operation.

use vstd::prelude::*;

use crate::decimal::{decimal, push_decimal};
use crate::wire::XsMessageType;

verus! {

/// The broad class that an error falls in.
#[derive(Clone, Copy, Debug, PartialEq, Eq, Structural)]
pub enum XsErrorKind {
    /// The task that serves the connection has died.
    BrokenPipe,
    /// The peer sent something that makes no sense.
    InvalidData,
    /// Anything else.
    Other,
}

/// Why a Xenstore operation failed.
#[derive(Clone, Debug)]
pub enum XsError {
    /// The message could not be handed to the task that serves the connection.
    NotSent,
    /// The task that serves the connection dropped the exchange without an answer.
    NoResponse,
    /// Xenstore refused the request; this is what it said.
    Refused(String),
    /// The response is neither of the type of the request nor an error.
    UnrelatedResponse(XsMessageType),
    /// The payload holds text that is not UTF-8.
    InvalidUtf8,
    /// A header names a message type that does not exist.
    UnknownMessageType(u32),
    /// A header of the wrong length.
    TruncatedHeader,
    /// This text is not a permission.
    InvalidPermission(String),
}

impl XsError {
    /// The class of this error.
    pub open spec fn spec_kind(&self) -> XsErrorKind {
        match self {
            XsError::NotSent | XsError::NoResponse => XsErrorKind::BrokenPipe,
            XsError::UnrelatedResponse(_)
            | XsError::InvalidUtf8
            | XsError::UnknownMessageType(_)
            | XsError::TruncatedHeader => XsErrorKind::InvalidData,
            XsError::Refused(_) | XsError::InvalidPermission(_) => XsErrorKind::Other,
        }
    }

    /// Returns the class of this error.
    pub fn kind(&self) -> (kind: XsErrorKind)
        ensures
            kind == self.spec_kind(),
    {
        match self {
            XsError::NotSent | XsError::NoResponse => XsErrorKind::BrokenPipe,
            XsError::UnrelatedResponse(_)
            | XsError::InvalidUtf8
            | XsError::UnknownMessageType(_)
            | XsError::TruncatedHeader => XsErrorKind::InvalidData,
            XsError::Refused(_) | XsError::InvalidPermission(_) => XsErrorKind::Other,
        }
    }

    /// What this error says.
    pub open spec fn spec_message(&self) -> Seq<char> {
        match self {
            XsError::NotSent => "sending on a closed channel"@,
            XsError::NoResponse => "oneshot canceled"@,
            XsError::Refused(reason) => reason@,
            XsError::UnrelatedResponse(msg_type) => "Got unrelated response ("@
                + msg_type.spec_name() + ")"@,
            XsError::InvalidUtf8 => "invalid utf-8"@,
            XsError::UnknownMessageType(code) => "Unknown message type ("@ + decimal(
                *code as nat,
            ) + ")"@,
            XsError::TruncatedHeader => "Truncated message header"@,
            XsError::InvalidPermission(text) => "Invalid permission ("@ + text@ + ")"@,
        }
    }

    /// Returns what this error says.
    pub fn message(&self) -> (message: String)
        ensures
            message@ == self.spec_message(),
    {
        let mut message: String = String::new();
        match self {
            XsError::NotSent => message.append("sending on a closed channel"),
            XsError::NoResponse => message.append("oneshot canceled"),
            XsError::Refused(reason) => message.append(reason.as_str()),
            XsError::UnrelatedResponse(msg_type) => {
                message.append("Got unrelated response (");
                message.append(msg_type.name());
                message.append(")");
            },
            XsError::InvalidUtf8 => message.append("invalid utf-8"),
            XsError::UnknownMessageType(code) => {
                message.append("Unknown message type (");
                push_decimal(&mut message, *code);
                message.append(")");
            },
            XsError::TruncatedHeader => message.append("Truncated message header"),
            XsError::InvalidPermission(text) => {
                message.append("Invalid permission (");
                message.append(text.as_str());
                message.append(")");
            },
        }
        assert(message@ =~= self.spec_message());
        message
    }
}

/// An error is a broken pipe exactly if the task that serves the connection could not be reached or
/// dropped the exchange, and invalid data exactly if the peer sent something that makes no sense.
/// What else an error holds does not matter for its class.
pub proof fn law_kind_goes_by_the_cause(error: XsError, kind: XsErrorKind)
    requires
        call_ensures(XsError::kind, (&error,), kind),
    ensures
        kind == XsErrorKind::BrokenPipe <==> error is NotSent || error is NoResponse,
        kind == XsErrorKind::InvalidData <==> error is UnrelatedResponse || error is InvalidUtf8
            || error is UnknownMessageType || error is TruncatedHeader,
        kind == XsErrorKind::Other <==> error is Refused || error is InvalidPermission,
{
}

/// A refusal says just what Xenstore said. An error about something that came in quotes it, all of
/// it, between the same words.
pub proof fn law_message_quotes_what_it_is_about(error: XsError, message: String)
    requires
        call_ensures(XsError::message, (&error,), message),
    ensures
        error matches XsError::Refused(reason) ==> message@ == reason@,
        error matches XsError::InvalidPermission(text) ==> message@ == "Invalid permission ("@
            + text@ + ")"@,
        error matches XsError::UnknownMessageType(code) ==> message@ == "Unknown message type ("@
            + decimal(code as nat) + ")"@,
        error matches XsError::UnrelatedResponse(msg_type) ==> message@
            == "Got unrelated response ("@ + msg_type.spec_name() + ")"@,
{
}

} // verus!
