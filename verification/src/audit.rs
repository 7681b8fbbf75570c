//! Audit settings of a device, and how they stand in a response.

use vstd::prelude::*;
use crate::command_type::CommandType;
use crate::error::SessionError;

verus! {

/// Whether the device logs a command, or refuses work when its log is full.
#[derive(Clone, Copy, Debug, PartialEq, Eq, Structural)]
pub enum AuditOption {
    /// Auditing is disabled.
    Off,
    /// Auditing is enabled.
    On,
    /// Auditing is enabled and cannot be disabled again.
    Fix,
}

/// Which audit setting a request asks for.
#[derive(Clone, Copy, Debug, PartialEq, Eq, Structural)]
pub enum AuditTag {
    /// The global setting: refuse operations when the log is full.
    Force,
    /// The settings of the individual commands.
    Command,
}

/// The audit setting of one command.
#[derive(Clone, Copy, Debug, PartialEq, Eq, Structural)]
pub struct AuditCommand {
    /// The command.
    pub command: CommandType,
    /// Its setting.
    pub audit: AuditOption,
}

/// The audit option that a byte stands for.
pub open spec fn audit_option_of(byte: u8) -> Result<AuditOption, SessionError> {
    if byte == 0x00 {
        Ok(AuditOption::Off)
    } else if byte == 0x01 {
        Ok(AuditOption::On)
    } else if byte == 0x02 {
        Ok(AuditOption::Fix)
    } else {
        Err(SessionError::InvalidAuditOption { byte })
    }
}

/// The global audit setting that a response payload stands for: the payload
/// is one byte, and that byte an audit option.
pub open spec fn force_audit_option(data: Seq<u8>) -> Result<AuditOption, SessionError> {
    if data.len() != 1 {
        Err(SessionError::UnexpectedResponseLength { expected: 1, actual: data.len() as usize })
    } else {
        audit_option_of(data[0])
    }
}

/// The entry that two bytes stand for: a command type and its audit option.
pub open spec fn audit_entry(command: u8, audit: u8) -> Result<AuditCommand, SessionError> {
    if !CommandType::is_code(command) {
        Err(SessionError::InvalidCommandType { byte: command })
    } else {
        match audit_option_of(audit) {
            Err(e) => Err(e),
            Ok(audit) => Ok(AuditCommand { command: CommandType::of_code(command), audit }),
        }
    }
}

/// `entries` in front of what the rest of a list stands for.
pub open spec fn prepend(entries: Seq<AuditCommand>, rest: Result<Seq<AuditCommand>, SessionError>) -> Result<
    Seq<AuditCommand>,
    SessionError,
> {
    match rest {
        Ok(tail) => Ok(entries + tail),
        Err(e) => Err(e),
    }
}

/// The list of per-command settings that a response payload stands for:
/// entries of two bytes each, to the end of the payload. The first entry
/// from the left that is no entry decides the error.
pub open spec fn command_audit_options(data: Seq<u8>) -> Result<Seq<AuditCommand>, SessionError>
    decreases data.len(),
{
    if data.len() == 0 {
        Ok(Seq::empty())
    } else if data.len() == 1 {
        Err(SessionError::TruncatedAuditList)
    } else {
        match audit_entry(data[0], data[1]) {
            Err(e) => Err(e),
            Ok(entry) => prepend(seq![entry], command_audit_options(data.subrange(2, data.len() as int))),
        }
    }
}

/// The setting of `command` in a list: that of the first entry for it.
pub open spec fn audit_option_in(list: Seq<AuditCommand>, command: CommandType) -> Option<
    AuditOption,
>
    decreases list.len(),
{
    if list.len() == 0 {
        None
    } else if list[0].command == command {
        Some(list[0].audit)
    } else {
        audit_option_in(list.subrange(1, list.len() as int), command)
    }
}

impl AuditOption {
    /// The byte that stands for the option.
    pub open spec fn code(self) -> u8 {
        match self {
            AuditOption::Off => 0x00,
            AuditOption::On => 0x01,
            AuditOption::Fix => 0x02,
        }
    }

    /// Decodes an audit option.
    pub fn from_u8(byte: u8) -> (result: Result<AuditOption, SessionError>)
        ensures
            result == audit_option_of(byte),
            result matches Ok(option) ==> option.code() == byte,
    {
        match byte {
            0x00 => Ok(AuditOption::Off),
            0x01 => Ok(AuditOption::On),
            0x02 => Ok(AuditOption::Fix),
            _ => Err(SessionError::InvalidAuditOption { byte }),
        }
    }

    /// Encodes an audit option.
    pub fn to_u8(self) -> (byte: u8)
        ensures
            byte == self.code(),
            audit_option_of(byte) == Ok::<AuditOption, SessionError>(self),
    {
        match self {
            AuditOption::Off => 0x00,
            AuditOption::On => 0x01,
            AuditOption::Fix => 0x02,
        }
    }
}

impl AuditTag {
    /// The byte that stands for the tag.
    pub open spec fn code(self) -> u8 {
        match self {
            AuditTag::Force => 0x01,
            AuditTag::Command => 0x03,
        }
    }

    /// Encodes the tag.
    pub fn to_u8(self) -> (byte: u8)
        ensures
            byte == self.code(),
    {
        match self {
            AuditTag::Force => 0x01,
            AuditTag::Command => 0x03,
        }
    }
}

/// Reads the global audit setting from a response payload.
pub fn parse_force_audit_option(data: &[u8]) -> (result: Result<AuditOption, SessionError>)
    ensures
        result == force_audit_option(data@),
{
    if data.len() != 1 {
        return Err(SessionError::UnexpectedResponseLength { expected: 1, actual: data.len() });
    }
    AuditOption::from_u8(data[0])
}

/// Reads the per-command audit settings from a response payload.
pub fn parse_command_audit_options(data: &[u8]) -> (result: Result<Vec<AuditCommand>, SessionError>)
    ensures
        (match result {
            Ok(list) => Ok(list@),
            Err(e) => Err(e),
        }) == command_audit_options(data@),
{
    let n = data.len();
    let mut list: Vec<AuditCommand> = Vec::new();
    let mut i: usize = 0;
    assert(data@.subrange(0, n as int) == data@);
    while i < n
        invariant
            i <= n,
            n == data@.len(),
            command_audit_options(data@) == prepend(
                list@,
                command_audit_options(data@.subrange(i as int, n as int)),
            ),
        decreases n - i,
    {
        let ghost rest = data@.subrange(i as int, n as int);
        if n - i == 1 {
            return Err(SessionError::TruncatedAuditList);
        }
        assert(rest.subrange(2, rest.len() as int) == data@.subrange(i + 2, n as int));
        let command = match CommandType::from_u8(data[i]) {
            Ok(command) => command,
            Err(e) => {
                return Err(e);
            },
        };
        let audit = match AuditOption::from_u8(data[i + 1]) {
            Ok(audit) => audit,
            Err(e) => {
                return Err(e);
            },
        };
        let ghost before = list@;
        list.push(AuditCommand { command, audit });
        i += 2;
        proof {
            let entry = AuditCommand { command, audit };
            let tail = command_audit_options(data@.subrange(i as int, n as int));
            if let Ok(t) = tail {
                assert(before + (seq![entry] + t) == list@ + t);
            }
        }
    }
    Ok(list)
}

/// Looks a command up in a list of audit settings.
pub fn find_audit_option(list: &Vec<AuditCommand>, command: CommandType) -> (result: Option<
    AuditOption,
>)
    ensures
        result == audit_option_in(list@, command),
{
    let mut i: usize = 0;
    assert(list@.subrange(0, list@.len() as int) == list@);
    while i < list.len()
        invariant
            i <= list@.len(),
            audit_option_in(list@, command) == audit_option_in(
                list@.subrange(i as int, list@.len() as int),
                command,
            ),
        decreases list@.len() - i,
    {
        let ghost rest = list@.subrange(i as int, list@.len() as int);
        assert(rest.subrange(1, rest.len() as int) == list@.subrange(i + 1, list@.len() as int));
        if list[i].command == command {
            return Some(list[i].audit);
        }
        i += 1;
    }
    None
}

} // verus!
