//! What holds of the protocol as a whole.
//!
//! Each law is stated over the functions by which the contracts of channel
//! and session describe their results, and is proved from those definitions
//! alone. Where a law would need the message authentication code to be free
//! of collisions, the colliding inputs are left out by name: nothing here
//! assumes a property of the cryptographic primitives.

use vstd::prelude::*;
use crate::bytes::be16;
use crate::channel::{
    card_cryptogram, icv, mac_input, session_mac_key, ChannelState, ChannelView,
};
use crate::command_type::CommandType;
use crate::error::{SessionError, SessionErrorKind};
use crate::message::{lemma_parse_encode, CommandView, ResponseView, SessionId};
use crate::primitives::{aes128_cbc_decrypt, cmac_aes128};
use crate::response_code::ResponseCode;
use crate::connector::{ConnectorError, ConnectorStatus, Request};
use crate::session::{
    create_outcome, create_session_reply, decrypted_outcome, handshake_outcome, healthy,
    new_outcome, plain_outcome, sent_after, Delivery, SessionView,
};
use crate::static_keys::StaticKeys;
use crate::{ObjectId, BLOCK_SIZE, MAC_SIZE, MAX_COMMANDS_PER_SESSION};

verus! {

/// Two different inputs whose tags, as carried by a message, are the same.
pub open spec fn tags_collide(key: Seq<u8>, a: Seq<u8>, b: Seq<u8>) -> bool {
    a != b && cmac_aes128(key, a).subrange(0, MAC_SIZE as int) == cmac_aes128(key, b).subrange(
        0,
        MAC_SIZE as int,
    )
}

/// The device's cryptogram verifies: the first exchange of a handshake
/// brought a session, a device challenge, and the cryptogram that the static
/// keys and both challenges give.
pub open spec fn device_cryptogram_verifies(
    static_keys: StaticKeys,
    host_challenge: Seq<u8>,
    first: Delivery,
) -> bool {
    &&& plain_outcome(CommandType::CreateSession, first) matches Ok(reply)
    &&& create_session_reply(reply) matches Ok((_, card_challenge, cryptogram))
    &&& cryptogram == card_cryptogram(
        session_mac_key(static_keys.mac_key@, host_challenge, card_challenge),
        host_challenge,
        card_challenge,
    )
}

/// The host's cryptogram verifies: the device acknowledged the command that
/// carried it, with an empty acknowledgement.
pub open spec fn host_cryptogram_acknowledged(second: Delivery) -> bool {
    &&& plain_outcome(CommandType::AuthSession, second) matches Ok(acknowledgement)
    &&& acknowledgement.data.len() == 0
}

/// A handshake completes if and only if both cryptograms verify. Where the
/// device's answer is well formed but its cryptogram is not the expected
/// one, the handshake fails with an error of the kind `AuthFailed`.
pub proof fn handshake_completes_iff_cryptograms_verify<C>(
    connector: C,
    sent: Seq<Request>,
    static_keys: StaticKeys,
    host_challenge: Seq<u8>,
    auth_key_id: ObjectId,
    reconnect: bool,
    first: Delivery,
    second: Delivery,
)
    ensures
        ({
            let outcome = handshake_outcome(
                connector,
                sent,
                static_keys,
                host_challenge,
                auth_key_id,
                reconnect,
                first,
                second,
            ).0;
            &&& outcome is Ok <==> device_cryptogram_verifies(static_keys, host_challenge, first)
                && host_cryptogram_acknowledged(second)
            &&& outcome matches Ok(session) ==> session.channel.state == ChannelState::Established
                && session.channel.counter == 1 && session.connector == connector
                && (create_session_reply(
                plain_outcome(CommandType::CreateSession, first)->Ok_0,
            ) matches Ok((id, _, _)) && session.channel.id == id)
            &&& plain_outcome(CommandType::CreateSession, first) matches Ok(reply) ==> (
            create_session_reply(reply) is Ok && !device_cryptogram_verifies(
                static_keys,
                host_challenge,
                first,
            )) ==> (outcome matches Err(e) && e == SessionError::CryptogramMismatch
                && e.spec_kind() == SessionErrorKind::AuthFailed)
        }),
{
}

/// What a handshake asks of the transport, whether it completes or fails.
///
/// The first request, if a token could be made for it, is the one that opens
/// the session: it carries the authentication key's identifier and the very
/// host challenge that the session keys are derived from. Unless the device's
/// cryptogram verifies, nothing follows it: no second message goes out after
/// a failed first exchange or a cryptogram mismatch. If it verifies, exactly
/// one request follows, the command that carries the host's cryptogram.
pub proof fn handshake_requests<C>(
    connector: C,
    sent: Seq<Request>,
    static_keys: StaticKeys,
    host_challenge: Seq<u8>,
    auth_key_id: ObjectId,
    reconnect: bool,
    first: Delivery,
    second: Delivery,
)
    ensures
        ({
            let (outcome, record) = handshake_outcome(
                connector,
                sent,
                static_keys,
                host_challenge,
                auth_key_id,
                reconnect,
                first,
                second,
            );
            let request = CommandView {
                command_type: CommandType::CreateSession,
                session_id: None,
                data: be16(auth_key_id as int) + host_challenge,
                mac: None,
            };
            let opened = sent_after(sent, request.encode(), first);
            &&& !device_cryptogram_verifies(static_keys, host_challenge, first) ==> record
                == opened
            &&& device_cryptogram_verifies(static_keys, host_challenge, first) ==> opened
                == sent.push(Request::Command(request.encode()))
            &&& device_cryptogram_verifies(static_keys, host_challenge, first) ==> (if second
                is NoToken {
                record == opened
            } else {
                record.len() == opened.len() + 1 && record.drop_last() == opened
                    && record.last() is Command
            })
            &&& outcome matches Ok(session) ==> session.sent == record
        }),
{
}

/// What opening a session over a transport asks of it.
///
/// The status comes first, and once. A transport that fails to report, or
/// reports anything but the exact text `"OK"`, is asked nothing more: no
/// handshake message is sent, and the error holds what was reported. With a
/// healthy status the rest is the handshake, on the same arguments.
pub proof fn create_requests<C>(
    connector: C,
    static_keys: StaticKeys,
    auth_key_id: ObjectId,
    reconnect: bool,
    status: Result<ConnectorStatus, ConnectorError>,
    host_challenge: Option<Seq<u8>>,
    first: Delivery,
    second: Delivery,
)
    ensures
        ({
            let (outcome, record) = create_outcome(
                connector,
                static_keys,
                auth_key_id,
                reconnect,
                status,
                host_challenge,
                first,
                second,
            );
            let asked = Seq::<Request>::empty().push(Request::Status);
            &&& record.len() >= 1 && record[0] == Request::Status
            &&& status matches Err(error) ==> record == asked && outcome == Err::<
                SessionView<C>,
                SessionError,
            >(SessionError::Connection { error })
            &&& status matches Ok(report) ==> (!healthy(report) ==> record == asked && outcome
                == Err::<SessionView<C>, SessionError>(
                SessionError::BadConnectorStatus { message: report.message },
            ) && outcome->Err_0.spec_kind() == SessionErrorKind::CreateFailed)
            &&& status matches Ok(report) ==> (healthy(report) ==> (outcome, record)
                == new_outcome(
                connector,
                asked,
                static_keys,
                auth_key_id,
                reconnect,
                host_challenge,
                first,
                second,
            ))
            &&& host_challenge is None ==> record == asked
        }),
{
    handshake_requests(
        connector,
        Seq::<Request>::empty().push(Request::Status),
        static_keys,
        host_challenge->Some_0,
        auth_key_id,
        reconnect,
        first,
        second,
    );
}

/// A channel that awaits the device's answer accepts a cryptogram only for
/// the challenges it was computed from: with either challenge replaced, the
/// same cryptogram is refused with an error of the kind `AuthFailed`, and the
/// channel is closed. Left out are the replaced challenges whose own
/// cryptogram happens to be the same.
pub proof fn replaced_challenge_fails_authentication(
    channel: ChannelView,
    id: SessionId,
    card_challenge: Seq<u8>,
    replaced_host_challenge: Seq<u8>,
    replaced_card_challenge: Seq<u8>,
)
    requires
        replaced_host_challenge != channel.host_challenge || replaced_card_challenge
            != card_challenge,
        card_cryptogram(
            session_mac_key(
                channel.static_mac_key,
                replaced_host_challenge,
                replaced_card_challenge,
            ),
            replaced_host_challenge,
            replaced_card_challenge,
        ) != card_cryptogram(
            session_mac_key(channel.static_mac_key, channel.host_challenge, card_challenge),
            channel.host_challenge,
            card_challenge,
        ),
    ensures
        ({
            let cryptogram = card_cryptogram(
                session_mac_key(channel.static_mac_key, channel.host_challenge, card_challenge),
                channel.host_challenge,
                card_challenge,
            );
            let replaced = ChannelView { host_challenge: replaced_host_challenge, ..channel };
            &&& channel.receive_device_challenge(id, card_challenge, cryptogram).1 is Ok
            &&& replaced.receive_device_challenge(id, replaced_card_challenge, cryptogram) == (
                ChannelView::closed(channel.id),
                Err::<(), SessionError>(SessionError::CryptogramMismatch),
            )
            &&& SessionError::CryptogramMismatch.spec_kind() == SessionErrorKind::AuthFailed
        }),
{
}

/// An envelope carries a response on a channel: it names the channel's
/// session, its tag is the one the channel computes for it, and its payload
/// decrypts, under the channel's key and the initial vector of the current
/// exchange, to the bytes of the response.
pub open spec fn carries(channel: ChannelView, envelope: ResponseView, inner: ResponseView) -> bool {
    &&& envelope.session_id == Some(channel.id)
    &&& envelope.mac == Some(channel.response_tag(envelope).subrange(0, MAC_SIZE as int))
    &&& envelope.data.len() + 9 <= 0xffff
    &&& aes128_cbc_decrypt(
        channel.enc_key,
        icv(channel.enc_key, channel.counter),
        envelope.data,
    ) == Some(inner.encode())
}

/// Round trip of a response: an established channel decrypts an envelope to
/// the very response that it carries, counts the exchange, and changes
/// nothing else. Where the response reports the success of the command that
/// was sent, the exchange gives its payload.
pub proof fn decrypt_inverts_encrypt(
    channel: ChannelView,
    envelope: ResponseView,
    inner: ResponseView,
    sent: CommandType,
)
    requires
        channel.state == ChannelState::Established,
        channel.counter < MAX_COMMANDS_PER_SESSION,
        inner.canonical(),
        carries(channel, envelope, inner),
    ensures
        channel.decrypt_response(envelope) == (
            ChannelView { counter: (channel.counter + 1) as u32, ..channel },
            Ok::<ResponseView, SessionError>(
                ResponseView { session_id: Some(channel.id), ..inner },
            ),
        ),
        inner.code == ResponseCode::Success(sent) ==> decrypted_outcome(
            sent,
            channel.decrypt_response(envelope).1->Ok_0,
        ) == Ok::<Seq<u8>, SessionError>(inner.data),
{
    lemma_parse_encode(inner);
}

/// The payload can be read back from what a tag is computed over: inputs
/// with the same chaining value and different payloads are different.
pub proof fn mac_input_tells_payloads_apart(
    chaining: Seq<u8>,
    type_byte: u8,
    id: SessionId,
    a: Seq<u8>,
    b: Seq<u8>,
)
    requires
        a != b,
    ensures
        mac_input(chaining, type_byte, id, a) != mac_input(chaining, type_byte, id, b),
{
    let x = mac_input(chaining, type_byte, id, a);
    let y = mac_input(chaining, type_byte, id, b);
    let n = chaining.len() + 4;
    assert(x.subrange(n as int, x.len() as int) == a);
    assert(y.subrange(n as int, y.len() as int) == b);
}

/// What a tag is computed over begins with the chaining value: inputs with
/// different chaining values of one block each are different.
pub proof fn mac_input_tells_chaining_apart(
    first: Seq<u8>,
    second: Seq<u8>,
    type_byte: u8,
    id: SessionId,
    a: Seq<u8>,
    b: Seq<u8>,
)
    requires
        first.len() == BLOCK_SIZE,
        second.len() == BLOCK_SIZE,
        first != second,
    ensures
        mac_input(first, type_byte, id, a) != mac_input(second, type_byte, id, b),
{
    let x = mac_input(first, type_byte, id, a);
    let y = mac_input(second, type_byte, id, b);
    assert(x.subrange(0, 16) == first);
    assert(y.subrange(0, 16) == second);
}

/// Chaining: two commands encrypted one after the other on the same channel
/// carry different tags, whatever they hold, even the same plaintext, and
/// however many responses were counted in between. The tag of the first
/// command is the chaining value under the second.
///
/// Left out are the commands for which the two tags are computed over the
/// same bytes, which takes a first tag that is the chaining value it was
/// computed over (see `mac_input_tells_chaining_apart`), and those on which
/// the message authentication code collides.
pub proof fn chained_tags_differ(
    channel: ChannelView,
    first: CommandView,
    second: CommandView,
    counter: u32,
)
    requires
        channel.wf(),
        channel.encrypt_command(first).1 is Ok,
        channel.encrypt_command(first).0.wf(),
        (ChannelView { counter, ..channel.encrypt_command(first).0 }).encrypt_command(second).1 is Ok,
        channel.envelope_mac_input(first) != (ChannelView {
            counter,
            ..channel.encrypt_command(first).0
        }).envelope_mac_input(second),
        !tags_collide(
            channel.mac_key,
            channel.envelope_mac_input(first),
            (ChannelView { counter, ..channel.encrypt_command(first).0 }).envelope_mac_input(
                second,
            ),
        ),
    ensures
        ({
            let (chained, first_envelope) = channel.encrypt_command(first);
            let (_, second_envelope) = (ChannelView { counter, ..chained }).encrypt_command(
                second,
            );
            &&& chained.chaining == cmac_aes128(
                channel.mac_key,
                channel.envelope_mac_input(first),
            )
            &&& first_envelope->Ok_0.mac == Some(chained.chaining.subrange(0, MAC_SIZE as int))
            &&& first_envelope->Ok_0.mac != second_envelope->Ok_0.mac
        }),
{
}

/// Tampering with the tag: an envelope whose tag was changed in any bit is
/// refused with an error of the kind `ProtocolError`, and the channel is
/// left as it was.
pub proof fn tampered_tag_is_rejected(channel: ChannelView, envelope: ResponseView, tag: Seq<u8>)
    requires
        channel.refusal(envelope) is None,
        envelope.mac != Some(tag),
    ensures
        channel.decrypt_response(ResponseView { mac: Some(tag), ..envelope }) == (
            channel,
            Err::<ResponseView, SessionError>(SessionError::MacMismatch),
        ),
        SessionError::MacMismatch.spec_kind() == SessionErrorKind::ProtocolError,
{
}

/// Tampering with the payload: an envelope whose payload was changed in any
/// bit is refused with an error of the kind `ProtocolError`, and the channel
/// is left as it was. Left out are the payloads on which the message
/// authentication code collides with the untampered payload.
pub proof fn tampered_payload_is_rejected(
    channel: ChannelView,
    envelope: ResponseView,
    payload: Seq<u8>,
)
    requires
        channel.refusal(envelope) is None,
        envelope.data != payload,
        !tags_collide(
            channel.rmac_key,
            mac_input(channel.chaining, envelope.code.code(), channel.id, envelope.data),
            mac_input(channel.chaining, envelope.code.code(), channel.id, payload),
        ),
    ensures
        ({
            let (after, result) = channel.decrypt_response(
                ResponseView { data: payload, ..envelope },
            );
            &&& after == channel
            &&& result matches Err(e)
            &&& e.spec_kind() == SessionErrorKind::ProtocolError
            &&& payload.len() + 9 <= 0xffff ==> e == SessionError::MacMismatch
        }),
{
    mac_input_tells_payloads_apart(
        channel.chaining,
        envelope.code.code(),
        channel.id,
        envelope.data,
        payload,
    );
}

/// Replay: an envelope that a channel accepts is refused once the channel has
/// been chained to another command, so a captured response cannot be played
/// back or out of order. Left out are the chaining values on which the
/// message authentication code collides with the chaining value it was
/// computed under.
pub proof fn replayed_response_is_rejected(
    channel: ChannelView,
    envelope: ResponseView,
    chaining: Seq<u8>,
)
    requires
        channel.wf(),
        chaining.len() == BLOCK_SIZE,
        channel.refusal(envelope) is None,
        chaining != channel.chaining,
        !tags_collide(
            channel.rmac_key,
            mac_input(channel.chaining, envelope.code.code(), channel.id, envelope.data),
            mac_input(chaining, envelope.code.code(), channel.id, envelope.data),
        ),
    ensures
        (ChannelView { chaining, ..channel }).decrypt_response(envelope) == (
            ChannelView { chaining, ..channel },
            Err::<ResponseView, SessionError>(SessionError::MacMismatch),
        ),
{
    mac_input_tells_chaining_apart(
        channel.chaining,
        chaining,
        envelope.code.code(),
        channel.id,
        envelope.data,
        envelope.data,
    );
}

/// An exchange that is not completed leaves the channel as it was: where the
/// channel refuses to encrypt, the transport fails, no token can be made,
/// the reply is malformed, reports a plain error or echoes another command,
/// or the channel refuses the envelope, the session differs from the one
/// before the call in the record of requests alone. The channel moves on
/// exactly when a reply passed its verification and was decrypted.
pub proof fn failed_exchange_leaves_the_channel<C>(
    session: SessionView<C>,
    command_type: CommandType,
    data: Seq<u8>,
    delivery: Delivery,
)
    ensures
        ({
            let command = CommandView { command_type, session_id: None, data, mac: None };
            let (chained, envelope) = session.channel.encrypt_command(command);
            let (after, result) = session.exchange_outcome(command_type, data, delivery);
            let completed = envelope is Ok && plain_outcome(
                CommandType::SessionMessage,
                delivery,
            ) is Ok && chained.decrypt_response(
                plain_outcome(CommandType::SessionMessage, delivery)->Ok_0,
            ).1 is Ok;
            &&& after.channel.id == session.channel.id && after.static_keys
                == session.static_keys && after.connector == session.connector
            &&& !completed ==> result is Err && after.channel == session.channel
            &&& completed ==> after.channel == chained.decrypt_response(
                plain_outcome(CommandType::SessionMessage, delivery)->Ok_0,
            ).0
            &&& envelope is Err ==> after == session
        }),
{
}

/// Closing asks the device at most once. Where the channel can encrypt the
/// request to close and a correlation token is there, exactly that request is
/// handed to the transport; otherwise nothing is. Whatever the device
/// answers, and whether it answers at all, the channel ends closed and wiped.
pub proof fn close_asks_once<C>(session: SessionView<C>, delivery: Delivery)
    ensures
        session.close_outcome(delivery).channel == ChannelView::closed(session.channel.id),
        ({
            let request = CommandView {
                command_type: CommandType::CloseSession,
                session_id: None,
                data: Seq::empty(),
                mac: None,
            };
            let after = session.close_outcome(delivery);
            match session.channel.encrypt_command(request).1 {
                Ok(envelope) => if delivery is NoToken {
                    after.sent == session.sent
                } else {
                    after.sent == session.sent.push(Request::Command(envelope.encode()))
                },
                Err(_) => after.sent == session.sent,
            }
        }),
{
}

/// A response that echoes another command than the one sent is refused,
/// whether or not its tag verified: on the plain envelope with a
/// `ProtocolError`, on the decrypted response with a `ResponseError`.
pub proof fn mismatched_echo_is_rejected<C>(
    session: SessionView<C>,
    sent: CommandType,
    data: Seq<u8>,
    delivery: Delivery,
    echoed: CommandType,
)
    requires
        echoed != sent,
    ensures
        forall|response: ResponseView|
            response.code == ResponseCode::Success(echoed) ==> #[trigger] decrypted_outcome(
                sent,
                response,
            ) == Err::<Seq<u8>, SessionError>(SessionError::ResponseTypeMismatch { sent, echoed }),
        (SessionError::ResponseTypeMismatch { sent, echoed }).spec_kind()
            == SessionErrorKind::ResponseError,
        (SessionError::CommandTypeMismatch { sent, echoed }).spec_kind()
            == SessionErrorKind::ProtocolError,
        ({
            let command = CommandView { command_type: sent, session_id: None, data, mac: None };
            let (chained, envelope) = session.channel.encrypt_command(command);
            envelope is Ok ==> (plain_outcome(CommandType::SessionMessage, delivery) matches Ok(
                reply,
            ) ==> (chained.decrypt_response(reply).1 matches Ok(response) ==> (response.code
                == ResponseCode::Success(echoed) ==> session.exchange_outcome(
                sent,
                data,
                delivery,
            ).1 == Err::<Seq<u8>, SessionError>(
                SessionError::ResponseTypeMismatch { sent, echoed },
            ))))
        }),
{
}

} // verus!
