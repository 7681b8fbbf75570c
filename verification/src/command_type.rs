//! Command type tags: one byte that names the operation a message carries.

use vstd::prelude::*;
use crate::error::SessionError;

verus! {

/// The operations a device understands, one tag each.
#[derive(Clone, Copy, Debug, PartialEq, Eq, Structural)]
pub enum CommandType {
    Unknown,
    Echo,
    CreateSession,
    AuthSession,
    SessionMessage,
    DeviceInfo,
    Bsl,
    Reset,
    CloseSession,
    StorageStatus,
    PutOpaqueObject,
    GetOpaqueObject,
    PutAuthKey,
    PutAsymmetricKey,
    GenerateAsymmetricKey,
    SignDataPkcs1,
    ListObjects,
    DecryptPkcs1,
    ExportWrapped,
    ImportWrapped,
    PutWrapKey,
    GetLogs,
    GetObjectInfo,
    PutOption,
    GetOption,
    GetPseudoRandom,
    PutHmacKey,
    HmacData,
    GetPubKey,
    SignDataPss,
    SignDataEcdsa,
    DecryptEcdh,
    DeleteObject,
    DecryptOaep,
    GenerateHmacKey,
    GenerateWrapKey,
    VerifyHmac,
    SshCertify,
    PutTemplate,
    GetTemplate,
    DecryptOtp,
    CreateOtpAead,
    RandomOtpAead,
    RewrapOtpAead,
    AttestAsymmetric,
    PutOtpAeadKey,
    GenerateOtpAeadKey,
    SetLogIndex,
    WrapData,
    UnwrapData,
    SignDataEddsa,
    Blink,
    Error,
}

impl CommandType {
    /// The byte that stands for this command type on the wire.
    pub open spec fn code(self) -> u8 {
        match self {
            CommandType::Unknown => 0x00,
            CommandType::Echo => 0x01,
            CommandType::CreateSession => 0x03,
            CommandType::AuthSession => 0x04,
            CommandType::SessionMessage => 0x05,
            CommandType::DeviceInfo => 0x06,
            CommandType::Bsl => 0x07,
            CommandType::Reset => 0x08,
            CommandType::CloseSession => 0x40,
            CommandType::StorageStatus => 0x41,
            CommandType::PutOpaqueObject => 0x42,
            CommandType::GetOpaqueObject => 0x43,
            CommandType::PutAuthKey => 0x44,
            CommandType::PutAsymmetricKey => 0x45,
            CommandType::GenerateAsymmetricKey => 0x46,
            CommandType::SignDataPkcs1 => 0x47,
            CommandType::ListObjects => 0x48,
            CommandType::DecryptPkcs1 => 0x49,
            CommandType::ExportWrapped => 0x4a,
            CommandType::ImportWrapped => 0x4b,
            CommandType::PutWrapKey => 0x4c,
            CommandType::GetLogs => 0x4d,
            CommandType::GetObjectInfo => 0x4e,
            CommandType::PutOption => 0x4f,
            CommandType::GetOption => 0x50,
            CommandType::GetPseudoRandom => 0x51,
            CommandType::PutHmacKey => 0x52,
            CommandType::HmacData => 0x53,
            CommandType::GetPubKey => 0x54,
            CommandType::SignDataPss => 0x55,
            CommandType::SignDataEcdsa => 0x56,
            CommandType::DecryptEcdh => 0x57,
            CommandType::DeleteObject => 0x58,
            CommandType::DecryptOaep => 0x59,
            CommandType::GenerateHmacKey => 0x5a,
            CommandType::GenerateWrapKey => 0x5b,
            CommandType::VerifyHmac => 0x5c,
            CommandType::SshCertify => 0x5d,
            CommandType::PutTemplate => 0x5e,
            CommandType::GetTemplate => 0x5f,
            CommandType::DecryptOtp => 0x60,
            CommandType::CreateOtpAead => 0x61,
            CommandType::RandomOtpAead => 0x62,
            CommandType::RewrapOtpAead => 0x63,
            CommandType::AttestAsymmetric => 0x64,
            CommandType::PutOtpAeadKey => 0x65,
            CommandType::GenerateOtpAeadKey => 0x66,
            CommandType::SetLogIndex => 0x67,
            CommandType::WrapData => 0x68,
            CommandType::UnwrapData => 0x69,
            CommandType::SignDataEddsa => 0x6a,
            CommandType::Blink => 0x6b,
            CommandType::Error => 0x7f,
        }
    }

    /// Whether some command type has `byte` as its code.
    pub open spec fn is_code(byte: u8) -> bool {
        exists|c: CommandType| #[trigger] c.code() == byte
    }

    /// The command type whose code is `byte`; meaningful where `is_code(byte)`.
    pub open spec fn of_code(byte: u8) -> CommandType {
        choose|c: CommandType| #[trigger] c.code() == byte
    }

    /// No two command types share a code, and every code is below 0x80.
    pub proof fn lemma_code(a: CommandType, b: CommandType)
        ensures
            a.code() < 0x80,
            a.code() == b.code() ==> a == b,
            CommandType::is_code(a.code()),
            CommandType::of_code(a.code()) == a,
    {
        assert(CommandType::of_code(a.code()).code() == a.code());
    }

    /// The name of the command type, as `Debug` prints it.
    pub open spec fn spec_name(self) -> Seq<char> {
        match self {
            CommandType::Unknown => "Unknown"@,
            CommandType::Echo => "Echo"@,
            CommandType::CreateSession => "CreateSession"@,
            CommandType::AuthSession => "AuthSession"@,
            CommandType::SessionMessage => "SessionMessage"@,
            CommandType::DeviceInfo => "DeviceInfo"@,
            CommandType::Bsl => "Bsl"@,
            CommandType::Reset => "Reset"@,
            CommandType::CloseSession => "CloseSession"@,
            CommandType::StorageStatus => "StorageStatus"@,
            CommandType::PutOpaqueObject => "PutOpaqueObject"@,
            CommandType::GetOpaqueObject => "GetOpaqueObject"@,
            CommandType::PutAuthKey => "PutAuthKey"@,
            CommandType::PutAsymmetricKey => "PutAsymmetricKey"@,
            CommandType::GenerateAsymmetricKey => "GenerateAsymmetricKey"@,
            CommandType::SignDataPkcs1 => "SignDataPkcs1"@,
            CommandType::ListObjects => "ListObjects"@,
            CommandType::DecryptPkcs1 => "DecryptPkcs1"@,
            CommandType::ExportWrapped => "ExportWrapped"@,
            CommandType::ImportWrapped => "ImportWrapped"@,
            CommandType::PutWrapKey => "PutWrapKey"@,
            CommandType::GetLogs => "GetLogs"@,
            CommandType::GetObjectInfo => "GetObjectInfo"@,
            CommandType::PutOption => "PutOption"@,
            CommandType::GetOption => "GetOption"@,
            CommandType::GetPseudoRandom => "GetPseudoRandom"@,
            CommandType::PutHmacKey => "PutHmacKey"@,
            CommandType::HmacData => "HmacData"@,
            CommandType::GetPubKey => "GetPubKey"@,
            CommandType::SignDataPss => "SignDataPss"@,
            CommandType::SignDataEcdsa => "SignDataEcdsa"@,
            CommandType::DecryptEcdh => "DecryptEcdh"@,
            CommandType::DeleteObject => "DeleteObject"@,
            CommandType::DecryptOaep => "DecryptOaep"@,
            CommandType::GenerateHmacKey => "GenerateHmacKey"@,
            CommandType::GenerateWrapKey => "GenerateWrapKey"@,
            CommandType::VerifyHmac => "VerifyHmac"@,
            CommandType::SshCertify => "SshCertify"@,
            CommandType::PutTemplate => "PutTemplate"@,
            CommandType::GetTemplate => "GetTemplate"@,
            CommandType::DecryptOtp => "DecryptOtp"@,
            CommandType::CreateOtpAead => "CreateOtpAead"@,
            CommandType::RandomOtpAead => "RandomOtpAead"@,
            CommandType::RewrapOtpAead => "RewrapOtpAead"@,
            CommandType::AttestAsymmetric => "AttestAsymmetric"@,
            CommandType::PutOtpAeadKey => "PutOtpAeadKey"@,
            CommandType::GenerateOtpAeadKey => "GenerateOtpAeadKey"@,
            CommandType::SetLogIndex => "SetLogIndex"@,
            CommandType::WrapData => "WrapData"@,
            CommandType::UnwrapData => "UnwrapData"@,
            CommandType::SignDataEddsa => "SignDataEddsa"@,
            CommandType::Blink => "Blink"@,
            CommandType::Error => "Error"@,
        }
    }

    /// The name of the command type, as `Debug` prints it.
    pub fn name(self) -> (name: &'static str)
        ensures
            name@ == self.spec_name(),
    {
        match self {
            CommandType::Unknown => "Unknown",
            CommandType::Echo => "Echo",
            CommandType::CreateSession => "CreateSession",
            CommandType::AuthSession => "AuthSession",
            CommandType::SessionMessage => "SessionMessage",
            CommandType::DeviceInfo => "DeviceInfo",
            CommandType::Bsl => "Bsl",
            CommandType::Reset => "Reset",
            CommandType::CloseSession => "CloseSession",
            CommandType::StorageStatus => "StorageStatus",
            CommandType::PutOpaqueObject => "PutOpaqueObject",
            CommandType::GetOpaqueObject => "GetOpaqueObject",
            CommandType::PutAuthKey => "PutAuthKey",
            CommandType::PutAsymmetricKey => "PutAsymmetricKey",
            CommandType::GenerateAsymmetricKey => "GenerateAsymmetricKey",
            CommandType::SignDataPkcs1 => "SignDataPkcs1",
            CommandType::ListObjects => "ListObjects",
            CommandType::DecryptPkcs1 => "DecryptPkcs1",
            CommandType::ExportWrapped => "ExportWrapped",
            CommandType::ImportWrapped => "ImportWrapped",
            CommandType::PutWrapKey => "PutWrapKey",
            CommandType::GetLogs => "GetLogs",
            CommandType::GetObjectInfo => "GetObjectInfo",
            CommandType::PutOption => "PutOption",
            CommandType::GetOption => "GetOption",
            CommandType::GetPseudoRandom => "GetPseudoRandom",
            CommandType::PutHmacKey => "PutHmacKey",
            CommandType::HmacData => "HmacData",
            CommandType::GetPubKey => "GetPubKey",
            CommandType::SignDataPss => "SignDataPss",
            CommandType::SignDataEcdsa => "SignDataEcdsa",
            CommandType::DecryptEcdh => "DecryptEcdh",
            CommandType::DeleteObject => "DeleteObject",
            CommandType::DecryptOaep => "DecryptOaep",
            CommandType::GenerateHmacKey => "GenerateHmacKey",
            CommandType::GenerateWrapKey => "GenerateWrapKey",
            CommandType::VerifyHmac => "VerifyHmac",
            CommandType::SshCertify => "SshCertify",
            CommandType::PutTemplate => "PutTemplate",
            CommandType::GetTemplate => "GetTemplate",
            CommandType::DecryptOtp => "DecryptOtp",
            CommandType::CreateOtpAead => "CreateOtpAead",
            CommandType::RandomOtpAead => "RandomOtpAead",
            CommandType::RewrapOtpAead => "RewrapOtpAead",
            CommandType::AttestAsymmetric => "AttestAsymmetric",
            CommandType::PutOtpAeadKey => "PutOtpAeadKey",
            CommandType::GenerateOtpAeadKey => "GenerateOtpAeadKey",
            CommandType::SetLogIndex => "SetLogIndex",
            CommandType::WrapData => "WrapData",
            CommandType::UnwrapData => "UnwrapData",
            CommandType::SignDataEddsa => "SignDataEddsa",
            CommandType::Blink => "Blink",
            CommandType::Error => "Error",
        }
    }

    /// Encodes the command type as its wire byte.
    pub fn to_u8(self) -> (byte: u8)
        ensures
            byte == self.code(),
    {
        match self {
            CommandType::Unknown => 0x00,
            CommandType::Echo => 0x01,
            CommandType::CreateSession => 0x03,
            CommandType::AuthSession => 0x04,
            CommandType::SessionMessage => 0x05,
            CommandType::DeviceInfo => 0x06,
            CommandType::Bsl => 0x07,
            CommandType::Reset => 0x08,
            CommandType::CloseSession => 0x40,
            CommandType::StorageStatus => 0x41,
            CommandType::PutOpaqueObject => 0x42,
            CommandType::GetOpaqueObject => 0x43,
            CommandType::PutAuthKey => 0x44,
            CommandType::PutAsymmetricKey => 0x45,
            CommandType::GenerateAsymmetricKey => 0x46,
            CommandType::SignDataPkcs1 => 0x47,
            CommandType::ListObjects => 0x48,
            CommandType::DecryptPkcs1 => 0x49,
            CommandType::ExportWrapped => 0x4a,
            CommandType::ImportWrapped => 0x4b,
            CommandType::PutWrapKey => 0x4c,
            CommandType::GetLogs => 0x4d,
            CommandType::GetObjectInfo => 0x4e,
            CommandType::PutOption => 0x4f,
            CommandType::GetOption => 0x50,
            CommandType::GetPseudoRandom => 0x51,
            CommandType::PutHmacKey => 0x52,
            CommandType::HmacData => 0x53,
            CommandType::GetPubKey => 0x54,
            CommandType::SignDataPss => 0x55,
            CommandType::SignDataEcdsa => 0x56,
            CommandType::DecryptEcdh => 0x57,
            CommandType::DeleteObject => 0x58,
            CommandType::DecryptOaep => 0x59,
            CommandType::GenerateHmacKey => 0x5a,
            CommandType::GenerateWrapKey => 0x5b,
            CommandType::VerifyHmac => 0x5c,
            CommandType::SshCertify => 0x5d,
            CommandType::PutTemplate => 0x5e,
            CommandType::GetTemplate => 0x5f,
            CommandType::DecryptOtp => 0x60,
            CommandType::CreateOtpAead => 0x61,
            CommandType::RandomOtpAead => 0x62,
            CommandType::RewrapOtpAead => 0x63,
            CommandType::AttestAsymmetric => 0x64,
            CommandType::PutOtpAeadKey => 0x65,
            CommandType::GenerateOtpAeadKey => 0x66,
            CommandType::SetLogIndex => 0x67,
            CommandType::WrapData => 0x68,
            CommandType::UnwrapData => 0x69,
            CommandType::SignDataEddsa => 0x6a,
            CommandType::Blink => 0x6b,
            CommandType::Error => 0x7f,
        }
    }

    /// Decodes a wire byte. Succeeds exactly on the bytes that are the code of
    /// a command type, and then returns that type.
    pub fn from_u8(byte: u8) -> (result: Result<CommandType, SessionError>)
        ensures
            CommandType::is_code(byte) ==> result == Ok::<CommandType, SessionError>(
                CommandType::of_code(byte),
            ),
            !CommandType::is_code(byte) ==> result == Err::<CommandType, SessionError>(
                SessionError::InvalidCommandType { byte },
            ),
    {
        let found = match byte {
            0x00 => Some(CommandType::Unknown),
            0x01 => Some(CommandType::Echo),
            0x03 => Some(CommandType::CreateSession),
            0x04 => Some(CommandType::AuthSession),
            0x05 => Some(CommandType::SessionMessage),
            0x06 => Some(CommandType::DeviceInfo),
            0x07 => Some(CommandType::Bsl),
            0x08 => Some(CommandType::Reset),
            0x40 => Some(CommandType::CloseSession),
            0x41 => Some(CommandType::StorageStatus),
            0x42 => Some(CommandType::PutOpaqueObject),
            0x43 => Some(CommandType::GetOpaqueObject),
            0x44 => Some(CommandType::PutAuthKey),
            0x45 => Some(CommandType::PutAsymmetricKey),
            0x46 => Some(CommandType::GenerateAsymmetricKey),
            0x47 => Some(CommandType::SignDataPkcs1),
            0x48 => Some(CommandType::ListObjects),
            0x49 => Some(CommandType::DecryptPkcs1),
            0x4a => Some(CommandType::ExportWrapped),
            0x4b => Some(CommandType::ImportWrapped),
            0x4c => Some(CommandType::PutWrapKey),
            0x4d => Some(CommandType::GetLogs),
            0x4e => Some(CommandType::GetObjectInfo),
            0x4f => Some(CommandType::PutOption),
            0x50 => Some(CommandType::GetOption),
            0x51 => Some(CommandType::GetPseudoRandom),
            0x52 => Some(CommandType::PutHmacKey),
            0x53 => Some(CommandType::HmacData),
            0x54 => Some(CommandType::GetPubKey),
            0x55 => Some(CommandType::SignDataPss),
            0x56 => Some(CommandType::SignDataEcdsa),
            0x57 => Some(CommandType::DecryptEcdh),
            0x58 => Some(CommandType::DeleteObject),
            0x59 => Some(CommandType::DecryptOaep),
            0x5a => Some(CommandType::GenerateHmacKey),
            0x5b => Some(CommandType::GenerateWrapKey),
            0x5c => Some(CommandType::VerifyHmac),
            0x5d => Some(CommandType::SshCertify),
            0x5e => Some(CommandType::PutTemplate),
            0x5f => Some(CommandType::GetTemplate),
            0x60 => Some(CommandType::DecryptOtp),
            0x61 => Some(CommandType::CreateOtpAead),
            0x62 => Some(CommandType::RandomOtpAead),
            0x63 => Some(CommandType::RewrapOtpAead),
            0x64 => Some(CommandType::AttestAsymmetric),
            0x65 => Some(CommandType::PutOtpAeadKey),
            0x66 => Some(CommandType::GenerateOtpAeadKey),
            0x67 => Some(CommandType::SetLogIndex),
            0x68 => Some(CommandType::WrapData),
            0x69 => Some(CommandType::UnwrapData),
            0x6a => Some(CommandType::SignDataEddsa),
            0x6b => Some(CommandType::Blink),
            0x7f => Some(CommandType::Error),
            _ => None,
        };
        match found {
            Some(c) => {
                proof {
                    CommandType::lemma_code(c, CommandType::of_code(byte));
                }
                Ok(c)
            },
            None => {
                assert forall|c: CommandType| #[trigger] c.code() != byte by {}
                Err(SessionError::InvalidCommandType { byte })
            },
        }
    }
}

} // verus!
