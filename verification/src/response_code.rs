//! Response codes: the first byte of every response.

use vstd::prelude::*;
use vstd::string::StringExecFns;
use crate::command_type::CommandType;
use crate::error::SessionError;

verus! {

/// What a device reports about a command: that it carried it out, or why not.
#[derive(Clone, Copy, Debug, PartialEq, Eq, Structural)]
pub enum ResponseCode {
    /// The command of the given type succeeded.
    Success(CommandType),
    MemoryError,
    InitError,
    NetError,
    ConnectorNotFound,
    InvalidParams,
    WrongLength,
    BufferTooSmall,
    CryptogramMismatch,
    AuthSessionError,
    MacMismatch,
    DeviceOk,
    DeviceInvalidCommand,
    DeviceInvalidData,
    DeviceInvalidSession,
    DeviceAuthFail,
    DeviceSessionsFull,
    DeviceSessionFailed,
    DeviceStorageFailed,
    DeviceWrongLength,
    DeviceInvalidPermission,
    DeviceLogFull,
    DeviceObjNotFound,
    DeviceIdIllegal,
    DeviceInvalidOtp,
    DeviceDemoMode,
    DeviceCmdUnexecuted,
    GenericError,
    DeviceObjectExists,
    ConnectorError,
}

impl ResponseCode {
    /// The byte that stands for this code on the wire: 0x80 above the command
    /// type for a success, and counting down from 0x7f for the errors.
    pub open spec fn code(self) -> u8 {
        match self {
            ResponseCode::Success(command_type) => (0x80 + command_type.code()) as u8,
            ResponseCode::MemoryError => 0x7f,
            ResponseCode::InitError => 0x7e,
            ResponseCode::NetError => 0x7d,
            ResponseCode::ConnectorNotFound => 0x7c,
            ResponseCode::InvalidParams => 0x7b,
            ResponseCode::WrongLength => 0x7a,
            ResponseCode::BufferTooSmall => 0x79,
            ResponseCode::CryptogramMismatch => 0x78,
            ResponseCode::AuthSessionError => 0x77,
            ResponseCode::MacMismatch => 0x76,
            ResponseCode::DeviceOk => 0x75,
            ResponseCode::DeviceInvalidCommand => 0x74,
            ResponseCode::DeviceInvalidData => 0x73,
            ResponseCode::DeviceInvalidSession => 0x72,
            ResponseCode::DeviceAuthFail => 0x71,
            ResponseCode::DeviceSessionsFull => 0x70,
            ResponseCode::DeviceSessionFailed => 0x6f,
            ResponseCode::DeviceStorageFailed => 0x6e,
            ResponseCode::DeviceWrongLength => 0x6d,
            ResponseCode::DeviceInvalidPermission => 0x6c,
            ResponseCode::DeviceLogFull => 0x6b,
            ResponseCode::DeviceObjNotFound => 0x6a,
            ResponseCode::DeviceIdIllegal => 0x69,
            ResponseCode::DeviceInvalidOtp => 0x68,
            ResponseCode::DeviceDemoMode => 0x67,
            ResponseCode::DeviceCmdUnexecuted => 0x66,
            ResponseCode::GenericError => 0x65,
            ResponseCode::DeviceObjectExists => 0x64,
            ResponseCode::ConnectorError => 0x63,
        }
    }

    /// Whether some response code has `byte` as its code.
    pub open spec fn is_code(byte: u8) -> bool {
        exists|c: ResponseCode| #[trigger] c.code() == byte
    }

    /// The response code whose code is `byte`; meaningful where `is_code(byte)`.
    pub open spec fn of_code(byte: u8) -> ResponseCode {
        choose|c: ResponseCode| #[trigger] c.code() == byte
    }

    /// Whether the code reports success.
    pub open spec fn spec_is_success(self) -> bool {
        self is Success
    }

    /// No two response codes share a code; successes are the codes from 0x80
    /// on, errors the codes below.
    pub proof fn lemma_code(a: ResponseCode, b: ResponseCode)
        ensures
            a is Success <==> a.code() >= 0x80,
            a.code() == b.code() ==> a == b,
            ResponseCode::is_code(a.code()),
            ResponseCode::of_code(a.code()) == a,
    {
        if let ResponseCode::Success(x) = a {
            CommandType::lemma_code(x, x);
        }
        if let ResponseCode::Success(y) = b {
            CommandType::lemma_code(y, y);
            if let ResponseCode::Success(x) = a {
                CommandType::lemma_code(x, y);
            }
        }
        let c = ResponseCode::of_code(a.code());
        if let ResponseCode::Success(z) = c {
            CommandType::lemma_code(z, z);
            if let ResponseCode::Success(x) = a {
                CommandType::lemma_code(x, z);
            }
        }
    }

    /// Whether the code reports success.
    #[verifier::when_used_as_spec(spec_is_success)]
    pub fn is_success(self) -> (b: bool)
        ensures
            b == self.spec_is_success(),
    {
        match self {
            ResponseCode::Success(_) => true,
            _ => false,
        }
    }

    /// The name of the code, as `Debug` prints it: the variant, and for a
    /// success the command type in parentheses.
    pub open spec fn spec_name(self) -> Seq<char> {
        match self {
            ResponseCode::Success(command_type) => "Success("@ + command_type.spec_name() + ")"@,
            ResponseCode::MemoryError => "MemoryError"@,
            ResponseCode::InitError => "InitError"@,
            ResponseCode::NetError => "NetError"@,
            ResponseCode::ConnectorNotFound => "ConnectorNotFound"@,
            ResponseCode::InvalidParams => "InvalidParams"@,
            ResponseCode::WrongLength => "WrongLength"@,
            ResponseCode::BufferTooSmall => "BufferTooSmall"@,
            ResponseCode::CryptogramMismatch => "CryptogramMismatch"@,
            ResponseCode::AuthSessionError => "AuthSessionError"@,
            ResponseCode::MacMismatch => "MacMismatch"@,
            ResponseCode::DeviceOk => "DeviceOk"@,
            ResponseCode::DeviceInvalidCommand => "DeviceInvalidCommand"@,
            ResponseCode::DeviceInvalidData => "DeviceInvalidData"@,
            ResponseCode::DeviceInvalidSession => "DeviceInvalidSession"@,
            ResponseCode::DeviceAuthFail => "DeviceAuthFail"@,
            ResponseCode::DeviceSessionsFull => "DeviceSessionsFull"@,
            ResponseCode::DeviceSessionFailed => "DeviceSessionFailed"@,
            ResponseCode::DeviceStorageFailed => "DeviceStorageFailed"@,
            ResponseCode::DeviceWrongLength => "DeviceWrongLength"@,
            ResponseCode::DeviceInvalidPermission => "DeviceInvalidPermission"@,
            ResponseCode::DeviceLogFull => "DeviceLogFull"@,
            ResponseCode::DeviceObjNotFound => "DeviceObjNotFound"@,
            ResponseCode::DeviceIdIllegal => "DeviceIdIllegal"@,
            ResponseCode::DeviceInvalidOtp => "DeviceInvalidOtp"@,
            ResponseCode::DeviceDemoMode => "DeviceDemoMode"@,
            ResponseCode::DeviceCmdUnexecuted => "DeviceCmdUnexecuted"@,
            ResponseCode::GenericError => "GenericError"@,
            ResponseCode::DeviceObjectExists => "DeviceObjectExists"@,
            ResponseCode::ConnectorError => "ConnectorError"@,
        }
    }

    /// The name of the code, as `Debug` prints it.
    pub fn name(self) -> (name: String)
        ensures
            name@ == self.spec_name(),
    {
        match self {
            ResponseCode::Success(command_type) => {
                let mut name = String::from_str("Success(");
                name.append(command_type.name());
                name.append(")");
                name
            },
            ResponseCode::MemoryError => String::from_str("MemoryError"),
            ResponseCode::InitError => String::from_str("InitError"),
            ResponseCode::NetError => String::from_str("NetError"),
            ResponseCode::ConnectorNotFound => String::from_str("ConnectorNotFound"),
            ResponseCode::InvalidParams => String::from_str("InvalidParams"),
            ResponseCode::WrongLength => String::from_str("WrongLength"),
            ResponseCode::BufferTooSmall => String::from_str("BufferTooSmall"),
            ResponseCode::CryptogramMismatch => String::from_str("CryptogramMismatch"),
            ResponseCode::AuthSessionError => String::from_str("AuthSessionError"),
            ResponseCode::MacMismatch => String::from_str("MacMismatch"),
            ResponseCode::DeviceOk => String::from_str("DeviceOk"),
            ResponseCode::DeviceInvalidCommand => String::from_str("DeviceInvalidCommand"),
            ResponseCode::DeviceInvalidData => String::from_str("DeviceInvalidData"),
            ResponseCode::DeviceInvalidSession => String::from_str("DeviceInvalidSession"),
            ResponseCode::DeviceAuthFail => String::from_str("DeviceAuthFail"),
            ResponseCode::DeviceSessionsFull => String::from_str("DeviceSessionsFull"),
            ResponseCode::DeviceSessionFailed => String::from_str("DeviceSessionFailed"),
            ResponseCode::DeviceStorageFailed => String::from_str("DeviceStorageFailed"),
            ResponseCode::DeviceWrongLength => String::from_str("DeviceWrongLength"),
            ResponseCode::DeviceInvalidPermission => String::from_str("DeviceInvalidPermission"),
            ResponseCode::DeviceLogFull => String::from_str("DeviceLogFull"),
            ResponseCode::DeviceObjNotFound => String::from_str("DeviceObjNotFound"),
            ResponseCode::DeviceIdIllegal => String::from_str("DeviceIdIllegal"),
            ResponseCode::DeviceInvalidOtp => String::from_str("DeviceInvalidOtp"),
            ResponseCode::DeviceDemoMode => String::from_str("DeviceDemoMode"),
            ResponseCode::DeviceCmdUnexecuted => String::from_str("DeviceCmdUnexecuted"),
            ResponseCode::GenericError => String::from_str("GenericError"),
            ResponseCode::DeviceObjectExists => String::from_str("DeviceObjectExists"),
            ResponseCode::ConnectorError => String::from_str("ConnectorError"),
        }
    }

    /// Encodes the response code as its wire byte.
    pub fn to_u8(self) -> (byte: u8)
        ensures
            byte == self.code(),
    {
        match self {
            ResponseCode::Success(command_type) => {
                proof {
                    CommandType::lemma_code(command_type, command_type);
                }
                0x80 + command_type.to_u8()
            },
            ResponseCode::MemoryError => 0x7f,
            ResponseCode::InitError => 0x7e,
            ResponseCode::NetError => 0x7d,
            ResponseCode::ConnectorNotFound => 0x7c,
            ResponseCode::InvalidParams => 0x7b,
            ResponseCode::WrongLength => 0x7a,
            ResponseCode::BufferTooSmall => 0x79,
            ResponseCode::CryptogramMismatch => 0x78,
            ResponseCode::AuthSessionError => 0x77,
            ResponseCode::MacMismatch => 0x76,
            ResponseCode::DeviceOk => 0x75,
            ResponseCode::DeviceInvalidCommand => 0x74,
            ResponseCode::DeviceInvalidData => 0x73,
            ResponseCode::DeviceInvalidSession => 0x72,
            ResponseCode::DeviceAuthFail => 0x71,
            ResponseCode::DeviceSessionsFull => 0x70,
            ResponseCode::DeviceSessionFailed => 0x6f,
            ResponseCode::DeviceStorageFailed => 0x6e,
            ResponseCode::DeviceWrongLength => 0x6d,
            ResponseCode::DeviceInvalidPermission => 0x6c,
            ResponseCode::DeviceLogFull => 0x6b,
            ResponseCode::DeviceObjNotFound => 0x6a,
            ResponseCode::DeviceIdIllegal => 0x69,
            ResponseCode::DeviceInvalidOtp => 0x68,
            ResponseCode::DeviceDemoMode => 0x67,
            ResponseCode::DeviceCmdUnexecuted => 0x66,
            ResponseCode::GenericError => 0x65,
            ResponseCode::DeviceObjectExists => 0x64,
            ResponseCode::ConnectorError => 0x63,
        }
    }

    /// Decodes a wire byte. Succeeds exactly on the bytes that are the code of
    /// a response code, and then returns that code. A byte from 0x80 on that is
    /// no success of a known command type is reported as an invalid command
    /// type; a byte below that is no error code, as an invalid response code.
    pub fn from_u8(byte: u8) -> (result: Result<ResponseCode, SessionError>)
        ensures
            ResponseCode::is_code(byte) ==> result == Ok::<ResponseCode, SessionError>(
                ResponseCode::of_code(byte),
            ),
            !ResponseCode::is_code(byte) && byte >= 0x80 ==> result == Err::<
                ResponseCode,
                SessionError,
            >(SessionError::InvalidCommandType { byte: (byte - 0x80) as u8 }),
            !ResponseCode::is_code(byte) && byte < 0x80 ==> result == Err::<
                ResponseCode,
                SessionError,
            >(SessionError::InvalidResponseCode { byte }),
    {
        if byte >= 0x80 {
            let tag: u8 = byte - 0x80;
            match CommandType::from_u8(tag) {
                Ok(command_type) => {
                    let code = ResponseCode::Success(command_type);
                    proof {
                        CommandType::lemma_code(command_type, command_type);
                        ResponseCode::lemma_code(code, ResponseCode::of_code(byte));
                    }
                    Ok(code)
                },
                Err(e) => {
                    assert forall|c: ResponseCode| #[trigger] c.code() != byte by {
                        ResponseCode::lemma_code(c, c);
                        if let ResponseCode::Success(x) = c {
                            CommandType::lemma_code(x, x);
                        }
                    }
                    Err(e)
                },
            }
        } else {
            let found = match byte {
                0x7f => Some(ResponseCode::MemoryError),
                0x7e => Some(ResponseCode::InitError),
                0x7d => Some(ResponseCode::NetError),
                0x7c => Some(ResponseCode::ConnectorNotFound),
                0x7b => Some(ResponseCode::InvalidParams),
                0x7a => Some(ResponseCode::WrongLength),
                0x79 => Some(ResponseCode::BufferTooSmall),
                0x78 => Some(ResponseCode::CryptogramMismatch),
                0x77 => Some(ResponseCode::AuthSessionError),
                0x76 => Some(ResponseCode::MacMismatch),
                0x75 => Some(ResponseCode::DeviceOk),
                0x74 => Some(ResponseCode::DeviceInvalidCommand),
                0x73 => Some(ResponseCode::DeviceInvalidData),
                0x72 => Some(ResponseCode::DeviceInvalidSession),
                0x71 => Some(ResponseCode::DeviceAuthFail),
                0x70 => Some(ResponseCode::DeviceSessionsFull),
                0x6f => Some(ResponseCode::DeviceSessionFailed),
                0x6e => Some(ResponseCode::DeviceStorageFailed),
                0x6d => Some(ResponseCode::DeviceWrongLength),
                0x6c => Some(ResponseCode::DeviceInvalidPermission),
                0x6b => Some(ResponseCode::DeviceLogFull),
                0x6a => Some(ResponseCode::DeviceObjNotFound),
                0x69 => Some(ResponseCode::DeviceIdIllegal),
                0x68 => Some(ResponseCode::DeviceInvalidOtp),
                0x67 => Some(ResponseCode::DeviceDemoMode),
                0x66 => Some(ResponseCode::DeviceCmdUnexecuted),
                0x65 => Some(ResponseCode::GenericError),
                0x64 => Some(ResponseCode::DeviceObjectExists),
                0x63 => Some(ResponseCode::ConnectorError),
                _ => None,
            };
            match found {
                Some(code) => {
                    proof {
                        ResponseCode::lemma_code(code, ResponseCode::of_code(byte));
                    }
                    Ok(code)
                },
                None => {
                    assert forall|c: ResponseCode| #[trigger] c.code() != byte by {
                        ResponseCode::lemma_code(c, c);
                    }
                    Err(SessionError::InvalidResponseCode { byte })
                },
            }
        }
    }
}

} // verus!
