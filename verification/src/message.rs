//! Framing of commands and responses.
//!
//! Every message is one type byte, the length of what follows as a 16-bit
//! big-endian number, and then, in this order and each only where the type
//! calls for it: one byte of session identifier, the payload, and eight bytes
//! of authentication tag.

use vstd::prelude::*;
use crate::bytes::{append, append_be16, array8, be16, copy_range, from_be16, lemma_be16_inverts};
use crate::command_type::CommandType;
use crate::error::SessionError;
use crate::response_code::ResponseCode;
use crate::{MAC_SIZE, MAX_MSG_SIZE, MAX_SESSION_ID};

verus! {

/// Identifier that the device gives to a session when it opens it.
#[derive(Clone, Copy, Debug, PartialEq, Eq, Structural)]
pub struct SessionId {
    /// The identifier as it stands on the wire.
    pub value: u8,
}

impl SessionId {
    /// Whether the identifier is one that a device hands out.
    pub open spec fn valid(self) -> bool {
        self.value <= MAX_SESSION_ID
    }

    /// Accepts the identifiers up to the largest that a device hands out.
    pub fn new(id: u8) -> (result: Result<SessionId, SessionError>)
        ensures
            id <= MAX_SESSION_ID ==> result == Ok::<SessionId, SessionError>(
                SessionId { value: id },
            ),
            id > MAX_SESSION_ID ==> result == Err::<SessionId, SessionError>(
                SessionError::InvalidSessionId { id },
            ),
    {
        if id > MAX_SESSION_ID {
            Err(SessionError::InvalidSessionId { id })
        } else {
            Ok(SessionId { value: id })
        }
    }

    /// The identifier as it stands on the wire.
    pub fn to_u8(self) -> (id: u8)
        ensures
            id == self.value,
    {
        self.value
    }
}

/// A command on its way to the device.
#[derive(Clone, Debug, PartialEq, Eq)]
pub struct CommandMessage {
    /// The operation asked for.
    pub command_type: CommandType,
    /// The session the command belongs to; none before a session exists.
    pub session_id: Option<SessionId>,
    /// The payload.
    pub data: Vec<u8>,
    /// The authentication tag; none on a command outside a session.
    pub mac: Option<[u8; 8]>,
}

/// What a command holds, as plain values.
pub struct CommandView {
    pub command_type: CommandType,
    pub session_id: Option<SessionId>,
    pub data: Seq<u8>,
    pub mac: Option<Seq<u8>>,
}

/// The byte of a session identifier, where there is one.
pub open spec fn session_id_bytes(session_id: Option<SessionId>) -> Seq<u8> {
    match session_id {
        Some(id) => seq![id.value],
        None => Seq::empty(),
    }
}

/// The bytes of an authentication tag, where there is one.
pub open spec fn mac_bytes(mac: Option<Seq<u8>>) -> Seq<u8> {
    match mac {
        Some(tag) => tag,
        None => Seq::empty(),
    }
}

impl CommandView {
    /// Number of bytes that follow the three bytes of header.
    pub open spec fn body_len(self) -> int {
        (session_id_bytes(self.session_id).len() + self.data.len() + mac_bytes(self.mac).len()) as int
    }

    /// A command that can be sent: its payload is within the limit and its
    /// tag, if any, has eight bytes.
    pub open spec fn wf(self) -> bool {
        &&& self.data.len() <= MAX_MSG_SIZE
        &&& self.mac matches Some(tag) ==> tag.len() == MAC_SIZE
    }

    /// The command as it stands on the wire.
    pub open spec fn encode(self) -> Seq<u8> {
        seq![self.command_type.code()] + be16(self.body_len()) + session_id_bytes(self.session_id)
            + self.data + mac_bytes(self.mac)
    }
}

/// The view of an optional tag.
pub open spec fn mac_view(mac: Option<[u8; 8]>) -> Option<Seq<u8>> {
    match mac {
        Some(tag) => Some(tag@),
        None => None,
    }
}

impl View for CommandMessage {
    type V = CommandView;

    open spec fn view(&self) -> CommandView {
        CommandView {
            command_type: self.command_type,
            session_id: self.session_id,
            data: self.data@,
            mac: mac_view(self.mac),
        }
    }
}

impl CommandMessage {
    /// A command outside any session. Fails where the payload is longer than
    /// a message may hold.
    pub fn new(command_type: CommandType, data: Vec<u8>) -> (result: Result<
        CommandMessage,
        SessionError,
    >)
        ensures
            data@.len() <= MAX_MSG_SIZE ==> (result matches Ok(command) && command@ == (
            CommandView { command_type, session_id: None, data: data@, mac: None })),
            data@.len() > MAX_MSG_SIZE ==> result == Err::<CommandMessage, SessionError>(
                SessionError::MessageTooLong { actual: data@.len() as usize },
            ),
    {
        if data.len() > MAX_MSG_SIZE {
            return Err(SessionError::MessageTooLong { actual: data.len() });
        }
        Ok(CommandMessage { command_type, session_id: None, data, mac: None })
    }

    /// A command of a session, with its authentication tag. Fails where the
    /// payload is longer than a message may hold.
    pub fn new_with_mac(
        command_type: CommandType,
        session_id: SessionId,
        data: Vec<u8>,
        mac: [u8; 8],
    ) -> (result: Result<CommandMessage, SessionError>)
        ensures
            data@.len() <= MAX_MSG_SIZE ==> (result matches Ok(command) && command@ == (
            CommandView {
                command_type,
                session_id: Some(session_id),
                data: data@,
                mac: Some(mac@),
            })),
            data@.len() > MAX_MSG_SIZE ==> result == Err::<CommandMessage, SessionError>(
                SessionError::MessageTooLong { actual: data@.len() as usize },
            ),
    {
        if data.len() > MAX_MSG_SIZE {
            return Err(SessionError::MessageTooLong { actual: data.len() });
        }
        Ok(CommandMessage { command_type, session_id: Some(session_id), data, mac: Some(mac) })
    }

    /// Number of bytes that follow the header on the wire.
    pub fn len(&self) -> (n: usize)
        requires
            self@.wf(),
        ensures
            n == self@.body_len(),
    {
        let mut n = self.data.len();
        if self.session_id.is_some() {
            n += 1;
        }
        if self.mac.is_some() {
            n += MAC_SIZE;
        }
        n
    }

    /// The command as it goes to the transport.
    pub fn serialize(&self) -> (bytes: Vec<u8>)
        requires
            self@.wf(),
        ensures
            bytes@ == self@.encode(),
    {
        let mut bytes: Vec<u8> = Vec::new();
        bytes.push(self.command_type.to_u8());
        append_be16(&mut bytes, self.len() as u16);
        if let Some(id) = self.session_id {
            bytes.push(id.to_u8());
        }
        append(&mut bytes, self.data.as_slice());
        if let Some(tag) = &self.mac {
            append(&mut bytes, tag.as_slice());
        }
        bytes
    }
}

/// A response from the device.
#[derive(Clone, Debug, PartialEq, Eq)]
pub struct ResponseMessage {
    /// Success of a command, or the error that the device reports.
    pub code: ResponseCode,
    /// The session the response belongs to.
    pub session_id: Option<SessionId>,
    /// The payload.
    pub data: Vec<u8>,
    /// The authentication tag.
    pub mac: Option<[u8; 8]>,
}

/// What a response holds, as plain values.
pub struct ResponseView {
    pub code: ResponseCode,
    pub session_id: Option<SessionId>,
    pub data: Seq<u8>,
    pub mac: Option<Seq<u8>>,
}

/// Whether a response with this code names its session on the wire: the
/// successes of opening a session and of a session message do.
pub open spec fn has_session_id(code: ResponseCode) -> bool {
    code == ResponseCode::Success(CommandType::CreateSession) || code == ResponseCode::Success(
        CommandType::SessionMessage,
    )
}

/// Whether a response with this code ends in an authentication tag: the
/// success of a session message does.
pub open spec fn has_rmac(code: ResponseCode) -> bool {
    code == ResponseCode::Success(CommandType::SessionMessage)
}

impl ResponseView {
    /// Number of bytes that follow the three bytes of header.
    pub open spec fn body_len(self) -> int {
        (session_id_bytes(self.session_id).len() + self.data.len() + mac_bytes(self.mac).len()) as int
    }

    /// A response as a parser can produce it: session identifier and tag stand
    /// exactly where the code calls for them, the identifier is one that a
    /// device hands out, the tag has eight bytes, and the length fits its field.
    pub open spec fn canonical(self) -> bool {
        &&& self.session_id is Some <==> has_session_id(self.code)
        &&& self.session_id matches Some(id) ==> id.valid()
        &&& self.mac is Some <==> has_rmac(self.code)
        &&& self.mac matches Some(tag) ==> tag.len() == MAC_SIZE
        &&& self.body_len() < 65536
    }

    /// The response as it stands on the wire.
    pub open spec fn encode(self) -> Seq<u8> {
        seq![self.code.code()] + be16(self.body_len()) + session_id_bytes(self.session_id)
            + self.data + mac_bytes(self.mac)
    }

    /// Whether the response reports success.
    pub open spec fn is_ok(self) -> bool {
        self.code is Success
    }
}

impl View for ResponseMessage {
    type V = ResponseView;

    open spec fn view(&self) -> ResponseView {
        ResponseView {
            code: self.code,
            session_id: self.session_id,
            data: self.data@,
            mac: mac_view(self.mac),
        }
    }
}

/// The view of a response or of the error in its place.
pub open spec fn response_result_view(result: Result<ResponseMessage, SessionError>) -> Result<
    ResponseView,
    SessionError,
> {
    match result {
        Ok(response) => Ok(response@),
        Err(e) => Err(e),
    }
}

/// What the bytes of a response stand for.
///
/// The checks come in this order: the header is complete; the first byte is a
/// response code; the declared length is the number of bytes after the
/// header; a session identifier is there, and valid, where the code calls for
/// one; eight bytes of tag are there where the code calls for them. What is
/// left between identifier and tag is the payload.
pub open spec fn parse_response(bytes: Seq<u8>) -> Result<ResponseView, SessionError> {
    if bytes.len() < 3 {
        Err(SessionError::ResponseTooShort { actual: bytes.len() as usize })
    } else if !ResponseCode::is_code(bytes[0]) {
        if bytes[0] >= 0x80 {
            Err(SessionError::InvalidCommandType { byte: (bytes[0] - 0x80) as u8 })
        } else {
            Err(SessionError::InvalidResponseCode { byte: bytes[0] })
        }
    } else if from_be16(bytes[1], bytes[2]) + 3 != bytes.len() {
        Err(
            SessionError::ResponseLengthMismatch {
                declared: from_be16(bytes[1], bytes[2]) as usize,
                actual: (bytes.len() - 3) as usize,
            },
        )
    } else {
        let code = ResponseCode::of_code(bytes[0]);
        let start: int = if has_session_id(code) {
            4
        } else {
            3
        };
        let end: int = if has_rmac(code) {
            bytes.len() - MAC_SIZE
        } else {
            bytes.len() as int
        };
        if has_session_id(code) && bytes.len() < 4 {
            Err(SessionError::MissingSessionId)
        } else if has_session_id(code) && bytes[3] > MAX_SESSION_ID {
            Err(SessionError::InvalidSessionId { id: bytes[3] })
        } else if end < start {
            Err(SessionError::MissingMac { actual: (bytes.len() - start) as usize })
        } else {
            Ok(
                ResponseView {
                    code,
                    session_id: if has_session_id(code) {
                        Some(SessionId { value: bytes[3] })
                    } else {
                        None
                    },
                    data: bytes.subrange(start, end),
                    mac: if has_rmac(code) {
                        Some(bytes.subrange(end, bytes.len() as int))
                    } else {
                        None
                    },
                },
            )
        }
    }
}

/// Parsing never yields anything but a canonical response.
pub proof fn lemma_parse_canonical(bytes: Seq<u8>)
    ensures
        parse_response(bytes) matches Ok(response) ==> response.canonical() && response.encode()
            == bytes,
{
    if let Ok(response) = parse_response(bytes) {
        ResponseCode::lemma_code(response.code, response.code);
        assert(be16(from_be16(bytes[1], bytes[2])) == seq![bytes[1], bytes[2]]);
    }
}

/// Parsing inverts encoding: the bytes of a canonical response parse to that
/// response.
pub proof fn lemma_parse_encode(response: ResponseView)
    requires
        response.canonical(),
    ensures
        parse_response(response.encode()) == Ok::<ResponseView, SessionError>(response),
{
    let bytes = response.encode();
    ResponseCode::lemma_code(response.code, response.code);
    lemma_be16_inverts(response.body_len());
    let parsed = parse_response(bytes);
    assert(parsed->Ok_0.data == response.data);
    assert(parsed->Ok_0.mac == response.mac);
}

impl ResponseMessage {
    /// Reads a response from the bytes that the transport brought back.
    pub fn parse(bytes: Vec<u8>) -> (result: Result<ResponseMessage, SessionError>)
        ensures
            response_result_view(result) == parse_response(bytes@),
    {
        let n = bytes.len();
        if n < 3 {
            return Err(SessionError::ResponseTooShort { actual: n });
        }
        let code = match ResponseCode::from_u8(bytes[0]) {
            Ok(code) => code,
            Err(e) => {
                return Err(e);
            },
        };
        let declared: usize = bytes[1] as usize * 256 + bytes[2] as usize;
        if declared + 3 != n {
            return Err(SessionError::ResponseLengthMismatch { declared, actual: n - 3 });
        }
        let with_id = match code {
            ResponseCode::Success(CommandType::CreateSession) => true,
            ResponseCode::Success(CommandType::SessionMessage) => true,
            _ => false,
        };
        let with_mac = match code {
            ResponseCode::Success(CommandType::SessionMessage) => true,
            _ => false,
        };
        let mut start: usize = 3;
        let mut session_id: Option<SessionId> = None;
        if with_id {
            if n < 4 {
                return Err(SessionError::MissingSessionId);
            }
            match SessionId::new(bytes[3]) {
                Ok(id) => {
                    session_id = Some(id);
                },
                Err(e) => {
                    return Err(e);
                },
            }
            start = 4;
        }
        let mut end: usize = n;
        let mut mac: Option<[u8; 8]> = None;
        if with_mac {
            if n - start < MAC_SIZE {
                return Err(SessionError::MissingMac { actual: n - start });
            }
            end = n - MAC_SIZE;
            mac = Some(array8(bytes.as_slice(), end));
        }
        let data = copy_range(bytes.as_slice(), start, end);
        Ok(ResponseMessage { code, session_id, data, mac })
    }

    /// Whether the device reports success.
    pub fn is_ok(&self) -> (b: bool)
        ensures
            b == self@.is_ok(),
    {
        self.code.is_success()
    }

    /// Whether the device reports an error.
    pub fn is_err(&self) -> (b: bool)
        ensures
            b == !self@.is_ok(),
    {
        !self.code.is_success()
    }

    /// The command type that a success echoes.
    pub fn command(&self) -> (command_type: Option<CommandType>)
        ensures
            command_type == (match self.code {
                ResponseCode::Success(c) => Some(c),
                _ => None,
            }),
    {
        match self.code {
            ResponseCode::Success(c) => Some(c),
            _ => None,
        }
    }
}

} // verus!
