//! Errors of a session, each with the kind it falls under.

use vstd::prelude::*;
use vstd::string::StringExecFns;
use crate::command_type::CommandType;
use crate::connector::ConnectorError;
use crate::response_code::ResponseCode;

verus! {

/// The kinds of failure a caller can tell apart.
#[derive(Clone, Copy, Debug, PartialEq, Eq, Structural)]
pub enum SessionErrorKind {
    /// A raw static key does not have the required length.
    InvalidKeyLength,
    /// The transport is unhealthy, or the handshake could not be set up.
    CreateFailed,
    /// Mutual authentication failed.
    AuthFailed,
    /// A message is malformed or out of place.
    ProtocolError,
    /// The device answered with something other than the success of the
    /// command that was sent.
    ResponseError,
    /// The transport failed.
    ConnectionError,
}

/// What went wrong, with the values needed to diagnose it. No variant holds
/// key material.
#[derive(Clone, Debug, PartialEq, Eq)]
pub enum SessionError {
    /// A raw static key of `actual` bytes was supplied.
    InvalidKeyLength { actual: usize },
    /// The transport reported this status message, which is not `"OK"`.
    BadConnectorStatus { message: String },
    /// The system's random source gave no host challenge.
    NoHostChallenge,
    /// The reply to the session-open request names no session.
    NoSessionId,
    /// The reply to the session-open request carries `actual` bytes where a
    /// device challenge and a device cryptogram are expected.
    BadCreateSessionResponse { actual: usize },
    /// The device's cryptogram is not the one derived from the static keys
    /// and both challenges.
    CryptogramMismatch,
    /// A message would carry `actual` bytes, more than a message may hold.
    MessageTooLong { actual: usize },
    /// A response of `actual` bytes is shorter than its header.
    ResponseTooShort { actual: usize },
    /// A response declares `declared` bytes after its header and carries `actual`.
    ResponseLengthMismatch { declared: usize, actual: usize },
    /// No response code has this byte.
    InvalidResponseCode { byte: u8 },
    /// No command type has this byte.
    InvalidCommandType { byte: u8 },
    /// A session identifier above the largest a device hands out.
    InvalidSessionId { id: u8 },
    /// A response that must name its session holds no byte for it.
    MissingSessionId,
    /// A response that must be authenticated holds `actual` bytes where its
    /// tag is expected.
    MissingMac { actual: usize },
    /// A response names session `actual_id` on the channel of session `expected_id`.
    SessionIdMismatch { expected_id: u8, actual_id: u8 },
    /// The authentication tag of a response is not the one computed for it.
    MacMismatch,
    /// The payload of an authenticated response does not decrypt to a padded message.
    DecryptFailed,
    /// The acknowledgement of the host's cryptogram carries `actual` bytes of payload.
    UnexpectedPayload { actual: usize },
    /// The session has carried as many commands as one session may.
    SessionLimitReached,
    /// The session was closed.
    SessionClosed,
    /// The response echoes command type `echoed` where `sent` was sent, found
    /// on the plain response.
    CommandTypeMismatch { sent: CommandType, echoed: CommandType },
    /// A response payload of `actual` bytes where `expected` are required.
    UnexpectedResponseLength { expected: usize, actual: usize },
    /// No audit option has this byte.
    InvalidAuditOption { byte: u8 },
    /// A list of audit settings ends in the middle of an entry.
    TruncatedAuditList,
    /// The device answered a plain command with an error.
    DeviceError { code: ResponseCode },
    /// The device answered an encrypted command with an error, inside an
    /// envelope that verified.
    DeviceCommandError { code: ResponseCode },
    /// The decrypted response echoes command type `echoed` where `sent` was sent.
    ResponseTypeMismatch { sent: CommandType, echoed: CommandType },
    /// The transport failed.
    Connection { error: ConnectorError },
    /// The system's random source gave no correlation token.
    NoCorrelationToken,
}

/// The text of one decimal digit.
pub open spec fn digit_text(d: nat) -> Seq<char> {
    if d == 0 {
        "0"@
    } else if d == 1 {
        "1"@
    } else if d == 2 {
        "2"@
    } else if d == 3 {
        "3"@
    } else if d == 4 {
        "4"@
    } else if d == 5 {
        "5"@
    } else if d == 6 {
        "6"@
    } else if d == 7 {
        "7"@
    } else if d == 8 {
        "8"@
    } else {
        "9"@
    }
}

/// A number written in decimal, without leading zeros.
pub open spec fn decimal(n: nat) -> Seq<char>
    decreases n,
{
    if n < 10 {
        digit_text(n)
    } else {
        decimal(n / 10) + digit_text(n % 10)
    }
}

/// The text of one decimal digit.
fn digit_str(d: usize) -> (text: &'static str)
    requires
        d < 10,
    ensures
        text@ == digit_text(d as nat),
{
    if d == 0 {
        "0"
    } else if d == 1 {
        "1"
    } else if d == 2 {
        "2"
    } else if d == 3 {
        "3"
    } else if d == 4 {
        "4"
    } else if d == 5 {
        "5"
    } else if d == 6 {
        "6"
    } else if d == 7 {
        "7"
    } else if d == 8 {
        "8"
    } else {
        "9"
    }
}

/// Appends a number in decimal to a text.
pub fn append_decimal(text: &mut String, n: usize)
    ensures
        final(text)@ == old(text)@ + decimal(n as nat),
    decreases n,
{
    if n >= 10 {
        append_decimal(text, n / 10);
    }
    text.append(digit_str(n % 10));
}

impl SessionError {
    /// What the error says to a reader.
    pub open spec fn spec_description(&self) -> Seq<char> {
        match self {
            SessionError::InvalidKeyLength { actual } => "invalid key length: "@ + decimal(
                *actual as nat,
            ) + " bytes (expected 16)"@,
            SessionError::BadConnectorStatus { message } => "bad status response from connector: "@
                + message@,
            SessionError::NoHostChallenge => "no random host challenge available"@,
            SessionError::NoSessionId => "no session ID in response"@,
            SessionError::BadCreateSessionResponse { actual } =>
                "expected 16-byte response to session creation, got "@ + decimal(*actual as nat),
            SessionError::CryptogramMismatch => "card cryptogram mismatch!"@,
            SessionError::MessageTooLong { actual } => "message too long: "@ + decimal(
                *actual as nat,
            ) + " bytes (max 2048)"@,
            SessionError::ResponseTooShort { actual } => "response too short: "@ + decimal(
                *actual as nat,
            ) + " (expected at least 3-bytes)"@,
            SessionError::ResponseLengthMismatch { declared, actual } =>
                "unexpected response length "@ + decimal(*actual as nat) + " (expecting "@
                    + decimal(*declared as nat) + ")"@,
            SessionError::InvalidResponseCode { byte } => "invalid response code: "@ + decimal(
                *byte as nat,
            ),
            SessionError::InvalidCommandType { byte } => "invalid command type: "@ + decimal(
                *byte as nat,
            ),
            SessionError::InvalidSessionId { id } => "session ID exceeds the maximum allowed: "@
                + decimal(*id as nat) + " (max 15)"@,
            SessionError::MissingSessionId => "session ID missing"@,
            SessionError::MissingMac { actual } => "missing R-MAC: "@ + decimal(*actual as nat)
                + " bytes where 8 are expected"@,
            SessionError::SessionIdMismatch { expected_id, actual_id } =>
                "message has session ID "@ + decimal(*actual_id as nat) + " (expected "@
                    + decimal(*expected_id as nat) + ")"@,
            SessionError::MacMismatch => "R-MAC mismatch!"@,
            SessionError::DecryptFailed => "error decrypting response"@,
            SessionError::UnexpectedPayload { actual } => "expected empty response data (got "@
                + decimal(*actual as nat) + "-bytes)"@,
            SessionError::SessionLimitReached => "max of 1048576 commands per session exceeded"@,
            SessionError::SessionClosed => "session is closed"@,
            SessionError::CommandTypeMismatch { sent, echoed } =>
                "command type mismatch: expected "@ + sent.spec_name() + ", got "@
                    + echoed.spec_name(),
            SessionError::UnexpectedResponseLength { expected, actual } => "expected "@ + decimal(
                *expected as nat,
            ) + "-byte response, got "@ + decimal(*actual as nat),
            SessionError::InvalidAuditOption { byte } => "invalid audit option: "@ + decimal(
                *byte as nat,
            ),
            SessionError::TruncatedAuditList => "audit option list ends within an entry"@,
            SessionError::DeviceError { code } => "HSM error: "@ + code.spec_name(),
            SessionError::DeviceCommandError { code } => if *code == ResponseCode::MemoryError {
                "general HSM error (e.g. bad command params, missing object)"@
            } else {
                code.spec_name()
            },
            SessionError::ResponseTypeMismatch { sent, echoed } =>
                "command type mismatch: expected "@ + sent.spec_name() + ", got "@
                    + echoed.spec_name(),
            SessionError::Connection { error } => "connection error: "@ + error.description@,
            SessionError::NoCorrelationToken => "no random correlation token available"@,
        }
    }

    /// What the error says to a reader: the condition, with the lengths, codes
    /// and identifiers involved. A device's general error is spelled out.
    pub fn description(&self) -> (text: String)
        ensures
            text@ == self.spec_description(),
    {
        match self {
            SessionError::InvalidKeyLength { actual } => {
                let mut text = String::from_str("invalid key length: ");
                append_decimal(&mut text, *actual);
                text.append(" bytes (expected 16)");
                text
            },
            SessionError::BadConnectorStatus { message } => {
                let mut text = String::from_str("bad status response from connector: ");
                text.append(message.as_str());
                text
            },
            SessionError::NoHostChallenge => String::from_str("no random host challenge available"),
            SessionError::NoSessionId => String::from_str("no session ID in response"),
            SessionError::BadCreateSessionResponse { actual } => {
                let mut text = String::from_str(
                    "expected 16-byte response to session creation, got ",
                );
                append_decimal(&mut text, *actual);
                text
            },
            SessionError::CryptogramMismatch => String::from_str("card cryptogram mismatch!"),
            SessionError::MessageTooLong { actual } => {
                let mut text = String::from_str("message too long: ");
                append_decimal(&mut text, *actual);
                text.append(" bytes (max 2048)");
                text
            },
            SessionError::ResponseTooShort { actual } => {
                let mut text = String::from_str("response too short: ");
                append_decimal(&mut text, *actual);
                text.append(" (expected at least 3-bytes)");
                text
            },
            SessionError::ResponseLengthMismatch { declared, actual } => {
                let mut text = String::from_str("unexpected response length ");
                append_decimal(&mut text, *actual);
                text.append(" (expecting ");
                append_decimal(&mut text, *declared);
                text.append(")");
                text
            },
            SessionError::InvalidResponseCode { byte } => {
                let mut text = String::from_str("invalid response code: ");
                append_decimal(&mut text, *byte as usize);
                text
            },
            SessionError::InvalidCommandType { byte } => {
                let mut text = String::from_str("invalid command type: ");
                append_decimal(&mut text, *byte as usize);
                text
            },
            SessionError::InvalidSessionId { id } => {
                let mut text = String::from_str("session ID exceeds the maximum allowed: ");
                append_decimal(&mut text, *id as usize);
                text.append(" (max 15)");
                text
            },
            SessionError::MissingSessionId => String::from_str("session ID missing"),
            SessionError::MissingMac { actual } => {
                let mut text = String::from_str("missing R-MAC: ");
                append_decimal(&mut text, *actual);
                text.append(" bytes where 8 are expected");
                text
            },
            SessionError::SessionIdMismatch { expected_id, actual_id } => {
                let mut text = String::from_str("message has session ID ");
                append_decimal(&mut text, *actual_id as usize);
                text.append(" (expected ");
                append_decimal(&mut text, *expected_id as usize);
                text.append(")");
                text
            },
            SessionError::MacMismatch => String::from_str("R-MAC mismatch!"),
            SessionError::DecryptFailed => String::from_str("error decrypting response"),
            SessionError::UnexpectedPayload { actual } => {
                let mut text = String::from_str("expected empty response data (got ");
                append_decimal(&mut text, *actual);
                text.append("-bytes)");
                text
            },
            SessionError::SessionLimitReached => String::from_str(
                "max of 1048576 commands per session exceeded",
            ),
            SessionError::SessionClosed => String::from_str("session is closed"),
            SessionError::CommandTypeMismatch { sent, echoed } => {
                let mut text = String::from_str("command type mismatch: expected ");
                text.append(sent.name());
                text.append(", got ");
                text.append(echoed.name());
                text
            },
            SessionError::UnexpectedResponseLength { expected, actual } => {
                let mut text = String::from_str("expected ");
                append_decimal(&mut text, *expected);
                text.append("-byte response, got ");
                append_decimal(&mut text, *actual);
                text
            },
            SessionError::InvalidAuditOption { byte } => {
                let mut text = String::from_str("invalid audit option: ");
                append_decimal(&mut text, *byte as usize);
                text
            },
            SessionError::TruncatedAuditList => String::from_str(
                "audit option list ends within an entry",
            ),
            SessionError::DeviceError { code } => {
                let mut text = String::from_str("HSM error: ");
                text.append(code.name().as_str());
                text
            },
            SessionError::DeviceCommandError { code } => {
                if *code == ResponseCode::MemoryError {
                    String::from_str("general HSM error (e.g. bad command params, missing object)")
                } else {
                    code.name()
                }
            },
            SessionError::ResponseTypeMismatch { sent, echoed } => {
                let mut text = String::from_str("command type mismatch: expected ");
                text.append(sent.name());
                text.append(", got ");
                text.append(echoed.name());
                text
            },
            SessionError::Connection { error } => {
                let mut text = String::from_str("connection error: ");
                text.append(error.description.as_str());
                text
            },
            SessionError::NoCorrelationToken => String::from_str(
                "no random correlation token available",
            ),
        }
    }

    /// The kind an error falls under.
    pub open spec fn spec_kind(&self) -> SessionErrorKind {
        match self {
            SessionError::InvalidKeyLength { .. } => SessionErrorKind::InvalidKeyLength,
            SessionError::BadConnectorStatus { .. } => SessionErrorKind::CreateFailed,
            SessionError::NoHostChallenge => SessionErrorKind::CreateFailed,
            SessionError::NoSessionId => SessionErrorKind::CreateFailed,
            SessionError::BadCreateSessionResponse { .. } => SessionErrorKind::ProtocolError,
            SessionError::CryptogramMismatch => SessionErrorKind::AuthFailed,
            SessionError::MessageTooLong { .. } => SessionErrorKind::ProtocolError,
            SessionError::ResponseTooShort { .. } => SessionErrorKind::ProtocolError,
            SessionError::ResponseLengthMismatch { .. } => SessionErrorKind::ProtocolError,
            SessionError::InvalidResponseCode { .. } => SessionErrorKind::ProtocolError,
            SessionError::InvalidCommandType { .. } => SessionErrorKind::ProtocolError,
            SessionError::InvalidSessionId { .. } => SessionErrorKind::ProtocolError,
            SessionError::MissingSessionId => SessionErrorKind::ProtocolError,
            SessionError::MissingMac { .. } => SessionErrorKind::ProtocolError,
            SessionError::SessionIdMismatch { .. } => SessionErrorKind::ProtocolError,
            SessionError::MacMismatch => SessionErrorKind::ProtocolError,
            SessionError::DecryptFailed => SessionErrorKind::ProtocolError,
            SessionError::UnexpectedPayload { .. } => SessionErrorKind::ProtocolError,
            SessionError::SessionLimitReached => SessionErrorKind::ProtocolError,
            SessionError::SessionClosed => SessionErrorKind::ProtocolError,
            SessionError::CommandTypeMismatch { .. } => SessionErrorKind::ProtocolError,
            SessionError::UnexpectedResponseLength { .. } => SessionErrorKind::ProtocolError,
            SessionError::InvalidAuditOption { .. } => SessionErrorKind::ProtocolError,
            SessionError::TruncatedAuditList => SessionErrorKind::ProtocolError,
            SessionError::DeviceError { .. } => SessionErrorKind::ResponseError,
            SessionError::DeviceCommandError { .. } => SessionErrorKind::ResponseError,
            SessionError::ResponseTypeMismatch { .. } => SessionErrorKind::ResponseError,
            SessionError::Connection { .. } => SessionErrorKind::ConnectionError,
            SessionError::NoCorrelationToken => SessionErrorKind::ConnectionError,
        }
    }

    /// The kind this error falls under.
    #[verifier::when_used_as_spec(spec_kind)]
    pub fn kind(&self) -> (kind: SessionErrorKind)
        ensures
            kind == self.spec_kind(),
    {
        match self {
            SessionError::InvalidKeyLength { .. } => SessionErrorKind::InvalidKeyLength,
            SessionError::BadConnectorStatus { .. } => SessionErrorKind::CreateFailed,
            SessionError::NoHostChallenge => SessionErrorKind::CreateFailed,
            SessionError::NoSessionId => SessionErrorKind::CreateFailed,
            SessionError::CryptogramMismatch => SessionErrorKind::AuthFailed,
            SessionError::DeviceError { .. } => SessionErrorKind::ResponseError,
            SessionError::DeviceCommandError { .. } => SessionErrorKind::ResponseError,
            SessionError::ResponseTypeMismatch { .. } => SessionErrorKind::ResponseError,
            SessionError::Connection { .. } => SessionErrorKind::ConnectionError,
            SessionError::NoCorrelationToken => SessionErrorKind::ConnectionError,
            _ => SessionErrorKind::ProtocolError,
        }
    }
}

} // verus!
