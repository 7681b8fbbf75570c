//! Reading the audit settings that are configured on a device.

use vstd::prelude::*;
use crate::audit::{
    audit_option_in, command_audit_options, find_audit_option, force_audit_option,
    parse_command_audit_options, parse_force_audit_option, AuditCommand, AuditOption, AuditTag,
};
use crate::command_type::CommandType;
use crate::connector::Connector;
use crate::error::SessionError;
use crate::session::{Delivery, Session};

verus! {

/// What a request for the global audit setting gives, for the payload that
/// the exchange brought or the error in its place.
pub open spec fn force_audit_outcome(exchange: Result<Seq<u8>, SessionError>) -> Result<
    AuditOption,
    SessionError,
> {
    match exchange {
        Ok(data) => force_audit_option(data),
        Err(e) => Err(e),
    }
}

/// What a request for the per-command audit settings gives.
pub open spec fn command_audit_outcome(exchange: Result<Seq<u8>, SessionError>) -> Result<
    Seq<AuditCommand>,
    SessionError,
> {
    match exchange {
        Ok(data) => command_audit_options(data),
        Err(e) => Err(e),
    }
}

/// What a request for the audit setting of one command gives.
pub open spec fn one_command_audit_outcome(
    exchange: Result<Seq<u8>, SessionError>,
    command: CommandType,
) -> Result<Option<AuditOption>, SessionError> {
    match command_audit_outcome(exchange) {
        Ok(list) => Ok(audit_option_in(list, command)),
        Err(e) => Err(e),
    }
}

/// Gets the audit setting of one command: the setting of its first entry in
/// the device's list, or `None` where the list has no entry for it.
pub fn get_command_audit_option<C: Connector>(session: &mut Session<C>, command: CommandType) -> (result:
    Result<Option<AuditOption>, SessionError>)
    ensures
        exists|delivery: Delivery|
            {
                let (after, exchange) = #[trigger] old(session)@.exchange_outcome(
                    CommandType::GetOption,
                    seq![AuditTag::Command.code()],
                    delivery,
                );
                final(session)@ == after && result == one_command_audit_outcome(exchange, command)
            },
{
    match get_all_command_audit_options(session) {
        Ok(list) => Ok(find_audit_option(&list, command)),
        Err(e) => Err(e),
    }
}

/// Gets the audit settings of all commands.
pub fn get_all_command_audit_options<C: Connector>(session: &mut Session<C>) -> (result: Result<
    Vec<AuditCommand>,
    SessionError,
>)
    ensures
        exists|delivery: Delivery|
            {
                let (after, exchange) = #[trigger] old(session)@.exchange_outcome(
                    CommandType::GetOption,
                    seq![AuditTag::Command.code()],
                    delivery,
                );
                final(session)@ == after && (match result {
                    Ok(list) => Ok(list@),
                    Err(e) => Err(e),
                }) == command_audit_outcome(exchange)
            },
{
    let mut request: Vec<u8> = Vec::new();
    request.push(AuditTag::Command.to_u8());
    match session.send_encrypted_command(CommandType::GetOption, request) {
        Ok(data) => parse_command_audit_options(data.as_slice()),
        Err(e) => Err(e),
    }
}

/// Gets the global audit setting: whether the device refuses operations once
/// its log is full.
pub fn get_force_audit_option<C: Connector>(session: &mut Session<C>) -> (result: Result<
    AuditOption,
    SessionError,
>)
    ensures
        exists|delivery: Delivery|
            {
                let (after, exchange) = #[trigger] old(session)@.exchange_outcome(
                    CommandType::GetOption,
                    seq![AuditTag::Force.code()],
                    delivery,
                );
                final(session)@ == after && result == force_audit_outcome(exchange)
            },
{
    let mut request: Vec<u8> = Vec::new();
    request.push(AuditTag::Force.to_u8());
    match session.send_encrypted_command(CommandType::GetOption, request) {
        Ok(data) => parse_force_audit_option(data.as_slice()),
        Err(e) => Err(e),
    }
}

} // verus!
