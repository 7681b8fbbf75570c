//! Sessions: the handshake over a transport, and the exchange of encrypted
//! commands afterwards.
//!
//! What the transport brings back is not under this library's control. Every
//! function that talks to it therefore states its result as a function of
//! what came back (a `Delivery`), whatever that was; the functions that make
//! the decisions take the reply as an argument and say exactly what they
//! return for each. What was asked of the transport is on record: every
//! function states the requests it made, in order, also where it fails.

use vstd::prelude::*;
use vstd::string::StringExecFns;
use vstd::string::StringSliceAdditionalSpecFns;
use crate::bytes::array8;
use crate::channel::{Challenge, Channel, ChannelState, ChannelView};
use crate::command_type::CommandType;
use crate::channel::icv;
use crate::connector::{
    Connector, ConnectorError, ConnectorStatus, CorrelationToken, Request, Transport,
    TransportView,
};
use crate::primitives::aes128_cbc_decrypt;
use crate::error::SessionError;
use crate::message::{
    parse_response, response_result_view, CommandMessage, CommandView, ResponseMessage,
    ResponseView, SessionId,
};
use crate::response_code::ResponseCode;
use crate::static_keys::{keys_of_password, StaticKeys};
use crate::{
    default_salt, pbkdf2_salt, ObjectId, CHALLENGE_SIZE, CRYPTOGRAM_SIZE, MAX_MSG_SIZE,
    PBKDF2_ITERATIONS,
};

verus! {

/// How one request to the transport ended.
pub enum Delivery {
    /// No correlation token could be made, so nothing was sent.
    NoToken,
    /// The transport failed.
    Failed(ConnectorError),
    /// The transport brought these bytes back.
    Delivered(Seq<u8>),
}

/// What the bytes of a reply to a plain command are taken for: the parsed
/// response if it reports the success of the command that was sent; the
/// device's error if it reports one; a mismatch if it echoes another command.
pub open spec fn checked_response(sent: CommandType, bytes: Seq<u8>) -> Result<
    ResponseView,
    SessionError,
> {
    match parse_response(bytes) {
        Err(e) => Err(e),
        Ok(response) => match response.code {
            ResponseCode::Success(echoed) => if echoed == sent {
                Ok(response)
            } else {
                Err(SessionError::CommandTypeMismatch { sent, echoed })
            },
            code => Err(SessionError::DeviceError { code }),
        },
    }
}

/// What one plain exchange gives, for each way it can end.
pub open spec fn plain_outcome(sent: CommandType, delivery: Delivery) -> Result<
    ResponseView,
    SessionError,
> {
    match delivery {
        Delivery::NoToken => Err(SessionError::NoCorrelationToken),
        Delivery::Failed(error) => Err(SessionError::Connection { error }),
        Delivery::Delivered(bytes) => checked_response(sent, bytes),
    }
}

/// What the reply to the request that opens a session holds: the session's
/// identifier, the device's challenge and the device's cryptogram.
pub open spec fn create_session_reply(response: ResponseView) -> Result<
    (SessionId, Seq<u8>, Seq<u8>),
    SessionError,
> {
    if response.session_id is None {
        Err(SessionError::NoSessionId)
    } else if response.data.len() != CHALLENGE_SIZE + CRYPTOGRAM_SIZE {
        Err(SessionError::BadCreateSessionResponse { actual: response.data.len() as usize })
    } else {
        Ok(
            (
                response.session_id->Some_0,
                response.data.subrange(0, CHALLENGE_SIZE as int),
                response.data.subrange(CHALLENGE_SIZE as int, CHALLENGE_SIZE + CRYPTOGRAM_SIZE),
            ),
        )
    }
}

/// What a decrypted response is taken for: its payload if it reports the
/// success of the command that was sent; the device's error if it reports
/// one; a mismatch if it echoes another command.
pub open spec fn decrypted_outcome(sent: CommandType, response: ResponseView) -> Result<
    Seq<u8>,
    SessionError,
> {
    match response.code {
        ResponseCode::Success(echoed) => if echoed == sent {
            Ok(response.data)
        } else {
            Err(SessionError::ResponseTypeMismatch { sent, echoed })
        },
        code => Err(SessionError::DeviceCommandError { code }),
    }
}

/// The view of a payload or of the error in its place.
pub open spec fn payload_result_view(result: Result<Vec<u8>, SessionError>) -> Result<
    Seq<u8>,
    SessionError,
> {
    match result {
        Ok(data) => Ok(data@),
        Err(e) => Err(e),
    }
}

/// Checks the reply to a plain command.
pub fn check_response(sent: CommandType, bytes: Vec<u8>) -> (result: Result<
    ResponseMessage,
    SessionError,
>)
    ensures
        response_result_view(result) == checked_response(sent, bytes@),
{
    let response = match ResponseMessage::parse(bytes) {
        Ok(response) => response,
        Err(e) => {
            return Err(e);
        },
    };
    match response.code {
        ResponseCode::Success(echoed) => {
            if echoed == sent {
                Ok(response)
            } else {
                Err(SessionError::CommandTypeMismatch { sent, echoed })
            }
        },
        code => Err(SessionError::DeviceError { code }),
    }
}

/// Reads the reply to the request that opens a session.
pub fn parse_create_session_response(response: &ResponseMessage) -> (result: Result<
    (SessionId, Challenge, [u8; 8]),
    SessionError,
>)
    ensures
        (match result {
            Ok((id, challenge, cryptogram)) => Ok((id, challenge.bytes@, cryptogram@)),
            Err(e) => Err(e),
        }) == create_session_reply(response@),
{
    let id = match response.session_id {
        Some(id) => id,
        None => {
            return Err(SessionError::NoSessionId);
        },
    };
    if response.data.len() != CHALLENGE_SIZE + CRYPTOGRAM_SIZE {
        return Err(SessionError::BadCreateSessionResponse { actual: response.data.len() });
    }
    let challenge = Challenge { bytes: array8(response.data.as_slice(), 0) };
    let cryptogram = array8(response.data.as_slice(), 8);
    Ok((id, challenge, cryptogram))
}

/// Checks a decrypted response against the command that was sent.
pub fn check_decrypted_response(sent: CommandType, response: ResponseMessage) -> (result: Result<
    Vec<u8>,
    SessionError,
>)
    ensures
        payload_result_view(result) == decrypted_outcome(sent, response@),
{
    match response.code {
        ResponseCode::Success(echoed) => {
            if echoed == sent {
                Ok(response.data)
            } else {
                Err(SessionError::ResponseTypeMismatch { sent, echoed })
            }
        },
        code => Err(SessionError::DeviceCommandError { code }),
    }
}

/// What a status request gives, for each report of the transport.
pub open spec fn status_outcome(report: Result<ConnectorStatus, ConnectorError>) -> Result<
    ConnectorStatus,
    SessionError,
> {
    match report {
        Ok(status) => Ok(status),
        Err(error) => Err(SessionError::Connection { error }),
    }
}

/// Whether a status reports a healthy transport: its message is `"OK"`.
pub open spec fn healthy(status: ConnectorStatus) -> bool {
    status.message@ == "OK"@
}

/// Accepts the status of a healthy transport and no other. The error holds
/// the message that was reported.
pub fn check_status(status: &ConnectorStatus) -> (result: Result<(), SessionError>)
    ensures
        healthy(*status) ==> result == Ok::<(), SessionError>(()),
        !healthy(*status) ==> result == Err::<(), SessionError>(
            SessionError::BadConnectorStatus { message: status.message },
        ),
{
    let ok = String::from_str("OK");
    if status.message == ok {
        Ok(())
    } else {
        Err(SessionError::BadConnectorStatus { message: status.message.clone() })
    }
}

/// The requests made of the transport so far, with the delivery of one more
/// command unless no token could be made for it.
pub open spec fn sent_after(sent: Seq<Request>, request: Seq<u8>, delivery: Delivery) -> Seq<
    Request,
> {
    if delivery is NoToken {
        sent
    } else {
        sent.push(Request::Command(request))
    }
}

/// Sends one plain command and checks the reply. The second component says
/// how the request ended; the command was handed to the transport unless it
/// is `NoToken`.
fn send_plain<C: Connector>(transport: &mut Transport<C>, command: &CommandMessage) -> (result: (
    Result<ResponseMessage, SessionError>,
    Ghost<Delivery>,
))
    requires
        command@.wf(),
    ensures
        response_result_view(result.0) == plain_outcome(command@.command_type, result.1@),
        final(transport)@ == (TransportView {
            log: sent_after(old(transport)@.log, command@.encode(), result.1@),
            ..old(transport)@
        }),
{
    let token = match CorrelationToken::generate() {
        Some(token) => token,
        None => {
            return (Err(SessionError::NoCorrelationToken), Ghost(Delivery::NoToken));
        },
    };
    match transport.send_command(token, command.serialize()) {
        Err(error) => (Err(SessionError::Connection { error }), Ghost(Delivery::Failed(error))),
        Ok(bytes) => {
            let ghost delivery = Delivery::Delivered(bytes@);
            (check_response(command.command_type, bytes), Ghost(delivery))
        },
    }
}

/// Opens a session on the device: sends the channel's request and reads the
/// session's identifier, the device's challenge and the device's cryptogram
/// from the reply.
fn create_session<C: Connector>(
    transport: &mut Transport<C>,
    channel: &mut Channel,
    auth_key_id: ObjectId,
) -> (result: (Result<(SessionId, Challenge, [u8; 8]), SessionError>, Ghost<Delivery>))
    requires
        old(channel)@.state == ChannelState::Created,
    ensures
        final(channel)@ == old(channel)@.create_session(auth_key_id).0,
        final(transport)@ == (TransportView {
            log: sent_after(
                old(transport)@.log,
                old(channel)@.create_session(auth_key_id).1.encode(),
                result.1@,
            ),
            ..old(transport)@
        }),
        (match result.0 {
            Ok((id, challenge, cryptogram)) => Ok((id, challenge.bytes@, cryptogram@)),
            Err(e) => Err(e),
        }) == (match plain_outcome(CommandType::CreateSession, result.1@) {
            Ok(reply) => create_session_reply(reply),
            Err(e) => Err(e),
        }),
{
    let request = channel.create_session(auth_key_id);
    let (reply, delivery) = send_plain(transport, &request);
    let parts = match reply {
        Ok(reply) => parse_create_session_response(&reply),
        Err(e) => Err(e),
    };
    (parts, delivery)
}

/// Authenticates the host to the device: sends the command that carries the
/// host's cryptogram and takes the device's acknowledgement.
fn authenticate<C: Connector>(transport: &mut Transport<C>, channel: &mut Channel) -> (result: (
    Result<(), SessionError>,
    Ghost<Delivery>,
))
    requires
        old(channel)@.state == ChannelState::DeviceAuthenticated,
    ensures
        final(transport)@ == (TransportView {
            log: sent_after(
                old(transport)@.log,
                old(channel)@.authenticate_session().1.encode(),
                result.1@,
            ),
            ..old(transport)@
        }),
        result.0 == (match plain_outcome(CommandType::AuthSession, result.1@) {
            Ok(acknowledgement) => old(
                channel,
            )@.authenticate_session().0.finish_authenticate_session(acknowledgement).1,
            Err(e) => Err(e),
        }),
        result.0 is Ok ==> (plain_outcome(CommandType::AuthSession, result.1@) matches Ok(
            acknowledgement,
        ) && final(channel)@ == old(
            channel,
        )@.authenticate_session().0.finish_authenticate_session(acknowledgement).0),
{
    let command = channel.authenticate_session();
    let (acknowledgement, delivery) = send_plain(transport, &command);
    let result = match acknowledgement {
        Ok(acknowledgement) => channel.finish_authenticate_session(&acknowledgement),
        Err(e) => Err(e),
    };
    (result, delivery)
}

/// What a session holds, as plain values.
pub struct SessionView<C> {
    /// The channel. Its identifier is the session's.
    pub channel: ChannelView,
    pub static_keys: Option<StaticKeys>,
    /// The connector that the session talks through.
    pub connector: C,
    /// Everything that was asked of the connector on the session's behalf,
    /// in order: status requests, and commands as the bytes handed over.
    pub sent: Seq<Request>,
}

/// How a handshake ends, for each way its two exchanges can end, and what
/// has been asked of the transport by then, starting from `sent`.
///
/// It succeeds exactly if the first exchange brings a session identifier, a
/// device challenge and the device cryptogram that the static keys and both
/// challenges give, and the second brings an empty acknowledgement of the
/// host's cryptogram. The session then holds the established channel, the
/// connector, and the static keys if it was asked to keep them.
///
/// The first request is the one that opens the session. The command that
/// carries the host's cryptogram follows only if the device's cryptogram was
/// verified; nothing follows a step that failed.
pub open spec fn handshake_outcome<C>(
    connector: C,
    sent: Seq<Request>,
    static_keys: StaticKeys,
    host_challenge: Seq<u8>,
    auth_key_id: ObjectId,
    reconnect: bool,
    first: Delivery,
    second: Delivery,
) -> (Result<SessionView<C>, SessionError>, Seq<Request>) {
    let created = ChannelView::created(
        static_keys.enc_key@,
        static_keys.mac_key@,
        host_challenge,
    );
    let (awaiting, request) = created.create_session(auth_key_id);
    let opened = sent_after(sent, request.encode(), first);
    match plain_outcome(CommandType::CreateSession, first) {
        Err(e) => (Err(e), opened),
        Ok(reply) => match create_session_reply(reply) {
            Err(e) => (Err(e), opened),
            Ok((id, card_challenge, cryptogram)) => match awaiting.receive_device_challenge(
                id,
                card_challenge,
                cryptogram,
            ) {
                (_, Err(e)) => (Err(e), opened),
                (authenticated, Ok(_)) => {
                    let (authenticating, command) = authenticated.authenticate_session();
                    let proved = sent_after(opened, command.encode(), second);
                    match plain_outcome(CommandType::AuthSession, second) {
                        Err(e) => (Err(e), proved),
                        Ok(acknowledgement) => match authenticating.finish_authenticate_session(
                            acknowledgement,
                        ) {
                            (_, Err(e)) => (Err(e), proved),
                            (established, Ok(_)) => (
                                Ok(
                                    SessionView {
                                        channel: established,
                                        static_keys: if reconnect {
                                            Some(static_keys)
                                        } else {
                                            None
                                        },
                                        connector,
                                        sent: proved,
                                    },
                                ),
                                proved,
                            ),
                        },
                    }
                },
            },
        },
    }
}

/// How a handshake with a fresh challenge ends. Nothing is asked of the
/// transport where the random source gives no challenge.
pub open spec fn new_outcome<C>(
    connector: C,
    sent: Seq<Request>,
    static_keys: StaticKeys,
    auth_key_id: ObjectId,
    reconnect: bool,
    host_challenge: Option<Seq<u8>>,
    first: Delivery,
    second: Delivery,
) -> (Result<SessionView<C>, SessionError>, Seq<Request>) {
    match host_challenge {
        None => (Err(SessionError::NoHostChallenge), sent),
        Some(challenge) => handshake_outcome(
            connector,
            sent,
            static_keys,
            challenge,
            auth_key_id,
            reconnect,
            first,
            second,
        ),
    }
}

/// How opening a session over a transport ends, for each status the transport
/// can report, each challenge the random source can give, and each way the
/// two exchanges of the handshake can end.
///
/// The status is asked first. A transport that fails to report, or reports
/// anything but a healthy status, is asked nothing more.
pub open spec fn create_outcome<C>(
    connector: C,
    static_keys: StaticKeys,
    auth_key_id: ObjectId,
    reconnect: bool,
    status: Result<ConnectorStatus, ConnectorError>,
    host_challenge: Option<Seq<u8>>,
    first: Delivery,
    second: Delivery,
) -> (Result<SessionView<C>, SessionError>, Seq<Request>) {
    let asked = Seq::<Request>::empty().push(Request::Status);
    match status {
        Err(error) => (Err(SessionError::Connection { error }), asked),
        Ok(status) => if !healthy(status) {
            (Err(SessionError::BadConnectorStatus { message: status.message }), asked)
        } else {
            new_outcome(
                connector,
                asked,
                static_keys,
                auth_key_id,
                reconnect,
                host_challenge,
                first,
                second,
            )
        },
    }
}

impl<C> SessionView<C> {
    /// How the exchange of one encrypted command ends, for each way the
    /// transport can answer, and the session afterwards.
    ///
    /// Nothing is sent, and the session is unchanged, where the channel
    /// refuses to encrypt the command. Otherwise the envelope is handed to
    /// the transport. The reply must be the success of a session message,
    /// pass the channel's verification, and decrypt to the success of the
    /// command that was sent.
    ///
    /// The channel changes only when an exchange is completed: when the
    /// reply passed the channel's verification and was decrypted. It is then
    /// chained to the command's tag and has counted the exchange, whether
    /// the device reports success or an error, for device and host are in
    /// step. Where the exchange is not completed, because the transport
    /// fails, the reply is malformed or the channel refuses it, the channel
    /// is as it was before the call.
    pub open spec fn exchange_outcome(
        self,
        command_type: CommandType,
        data: Seq<u8>,
        delivery: Delivery,
    ) -> (SessionView<C>, Result<Seq<u8>, SessionError>) {
        let command = CommandView { command_type, session_id: None, data, mac: None };
        match self.channel.encrypt_command(command) {
            (_, Err(e)) => (self, Err(e)),
            (chained, Ok(envelope)) => {
                let sent = sent_after(self.sent, envelope.encode(), delivery);
                match plain_outcome(CommandType::SessionMessage, delivery) {
                    Err(e) => (SessionView { sent, ..self }, Err(e)),
                    Ok(reply) => match chained.decrypt_response(reply) {
                        (_, Err(e)) => (SessionView { sent, ..self }, Err(e)),
                        (counted, Ok(response)) => (
                            SessionView { channel: counted, sent, ..self },
                            decrypted_outcome(command_type, response),
                        ),
                    },
                }
            },
        }
    }

    /// The session after one plain command: nothing changes but the record
    /// of what was asked of the transport.
    pub open spec fn plain_exchange(self, command: CommandView, delivery: Delivery) -> SessionView<
        C,
    > {
        SessionView { sent: sent_after(self.sent, command.encode(), delivery), ..self }
    }

    /// The session after it was closed: the channel is wiped; the device was
    /// asked to close the session if the channel was established, and then at
    /// most once.
    pub open spec fn close_outcome(self, delivery: Delivery) -> SessionView<C> {
        SessionView {
            channel: ChannelView::closed(self.channel.id),
            ..self.exchange_outcome(CommandType::CloseSession, Seq::empty(), delivery).0
        }
    }
}

/// The view of a session or of the error in its place.
pub open spec fn session_result_view<C: Connector>(
    result: Result<Session<C>, SessionError>,
) -> Result<SessionView<C>, SessionError> {
    match result {
        Ok(session) => Ok(session@),
        Err(e) => Err(e),
    }
}

/// An authenticated, encrypted session with a device.
pub struct Session<C: Connector> {
    channel: Channel,
    transport: Transport<C>,
    static_keys: Option<StaticKeys>,
}

impl<C: Connector> View for Session<C> {
    type V = SessionView<C>;

    closed spec fn view(&self) -> SessionView<C> {
        SessionView {
            channel: self.channel@,
            static_keys: self.static_keys,
            connector: self.transport@.connector,
            sent: self.transport@.log,
        }
    }
}

impl<C: Connector> Session<C> {
    /// Opens a session over a transport: asks the transport for its status,
    /// and, if it is healthy, performs the handshake with the given static
    /// keys. The second component is the record of what was asked of the
    /// transport, whether or not a session came of it.
    pub fn create(connector: C, auth_key_id: ObjectId, static_keys: StaticKeys, reconnect: bool) -> (result:
        (Result<Session<C>, SessionError>, Ghost<Seq<Request>>))
        ensures
            exists|
                status: Result<ConnectorStatus, ConnectorError>,
                host_challenge: Option<Seq<u8>>,
                first: Delivery,
                second: Delivery,
            |
                (session_result_view(result.0), result.1@) == #[trigger] create_outcome(
                    connector,
                    static_keys,
                    auth_key_id,
                    reconnect,
                    status,
                    host_challenge,
                    first,
                    second,
                ),
    {
        let mut transport = Transport::new(connector);
        let status = transport.status();
        let ghost asked = transport@.log;
        assert(asked =~= Seq::<Request>::empty().push(Request::Status));
        match status {
            Err(error) => {
                let result = (Err(SessionError::Connection { error }), Ghost(asked));
                assert((session_result_view(result.0), result.1@) == create_outcome(
                    connector,
                    static_keys,
                    auth_key_id,
                    reconnect,
                    status,
                    None,
                    Delivery::NoToken,
                    Delivery::NoToken,
                ));
                result
            },
            Ok(report) => {
                match check_status(&report) {
                    Err(e) => {
                        let result = (Err(e), Ghost(asked));
                        assert((session_result_view(result.0), result.1@) == create_outcome(
                            connector,
                            static_keys,
                            auth_key_id,
                            reconnect,
                            status,
                            None,
                            Delivery::NoToken,
                            Delivery::NoToken,
                        ));
                        result
                    },
                    Ok(_) => {
                        let result = Session::start(transport, auth_key_id, static_keys, reconnect);
                        proof {
                            let (host_challenge, first, second) = choose|
                                host_challenge: Option<Seq<u8>>,
                                first: Delivery,
                                second: Delivery,
                            |
                                (session_result_view(result.0), result.1@)
                                    == #[trigger] new_outcome(
                                    connector,
                                    asked,
                                    static_keys,
                                    auth_key_id,
                                    reconnect,
                                    host_challenge,
                                    first,
                                    second,
                                );
                            assert((session_result_view(result.0), result.1@) == create_outcome(
                                connector,
                                static_keys,
                                auth_key_id,
                                reconnect,
                                status,
                                host_challenge,
                                first,
                                second,
                            ));
                        }
                        result
                    },
                }
            },
        }
    }

    /// Opens a session with the static keys that a password stands for.
    pub fn create_from_password(connector: C, auth_key_id: ObjectId, password: &str, reconnect: bool) -> (result:
        (Result<Session<C>, SessionError>, Ghost<Seq<Request>>))
        ensures
            exists|
                static_keys: StaticKeys,
                status: Result<ConnectorStatus, ConnectorError>,
                host_challenge: Option<Seq<u8>>,
                first: Delivery,
                second: Delivery,
            |
                (static_keys.enc_key@, static_keys.mac_key@) == keys_of_password(
                    password.spec_bytes(),
                    pbkdf2_salt(),
                    PBKDF2_ITERATIONS,
                ) && (session_result_view(result.0), result.1@) == #[trigger] create_outcome(
                    connector,
                    static_keys,
                    auth_key_id,
                    reconnect,
                    status,
                    host_challenge,
                    first,
                    second,
                ),
    {
        let salt = default_salt();
        let static_keys = StaticKeys::derive_from_password(
            password.as_bytes(),
            salt.as_slice(),
            PBKDF2_ITERATIONS,
        );
        Session::create(connector, auth_key_id, static_keys, reconnect)
    }

    /// Performs the handshake with a fresh host challenge. The second
    /// component is the record of what was asked of the transport.
    pub fn new(connector: C, auth_key_id: ObjectId, static_keys: StaticKeys, reconnect: bool) -> (result:
        (Result<Session<C>, SessionError>, Ghost<Seq<Request>>))
        ensures
            exists|host_challenge: Option<Seq<u8>>, first: Delivery, second: Delivery|
                (session_result_view(result.0), result.1@) == #[trigger] new_outcome(
                    connector,
                    Seq::empty(),
                    static_keys,
                    auth_key_id,
                    reconnect,
                    host_challenge,
                    first,
                    second,
                ),
    {
        Session::start(Transport::new(connector), auth_key_id, static_keys, reconnect)
    }

    /// Performs the handshake with the host challenge that the caller
    /// supplies. The second component is the record of what was asked of the
    /// transport.
    ///
    /// The host opens the session with its challenge, verifies the device's
    /// cryptogram, and proves itself by its own cryptogram. No message is sent
    /// after a step has failed, and no session is returned.
    pub fn open(
        connector: C,
        auth_key_id: ObjectId,
        static_keys: StaticKeys,
        reconnect: bool,
        host_challenge: Challenge,
    ) -> (result: (Result<Session<C>, SessionError>, Ghost<Seq<Request>>))
        ensures
            exists|first: Delivery, second: Delivery|
                (session_result_view(result.0), result.1@) == #[trigger] handshake_outcome(
                    connector,
                    Seq::empty(),
                    static_keys,
                    host_challenge.bytes@,
                    auth_key_id,
                    reconnect,
                    first,
                    second,
                ),
    {
        Session::handshake(
            Transport::new(connector),
            auth_key_id,
            static_keys,
            reconnect,
            host_challenge,
        )
    }

    /// Draws a host challenge and performs the handshake over a transport of
    /// which something may have been asked already.
    fn start(transport: Transport<C>, auth_key_id: ObjectId, static_keys: StaticKeys, reconnect: bool) -> (result:
        (Result<Session<C>, SessionError>, Ghost<Seq<Request>>))
        ensures
            exists|host_challenge: Option<Seq<u8>>, first: Delivery, second: Delivery|
                (session_result_view(result.0), result.1@) == #[trigger] new_outcome(
                    transport@.connector,
                    transport@.log,
                    static_keys,
                    auth_key_id,
                    reconnect,
                    host_challenge,
                    first,
                    second,
                ),
    {
        match Challenge::random() {
            None => {
                let result = (Err(SessionError::NoHostChallenge), Ghost(transport@.log));
                assert((session_result_view(result.0), result.1@) == new_outcome(
                    transport@.connector,
                    transport@.log,
                    static_keys,
                    auth_key_id,
                    reconnect,
                    None,
                    Delivery::NoToken,
                    Delivery::NoToken,
                ));
                result
            },
            Some(host_challenge) => {
                let ghost connector = transport@.connector;
                let ghost sent = transport@.log;
                let result = Session::handshake(
                    transport,
                    auth_key_id,
                    static_keys,
                    reconnect,
                    host_challenge,
                );
                proof {
                    let (first, second) = choose|first: Delivery, second: Delivery|
                        (session_result_view(result.0), result.1@) == #[trigger] handshake_outcome(
                            connector,
                            sent,
                            static_keys,
                            host_challenge.bytes@,
                            auth_key_id,
                            reconnect,
                            first,
                            second,
                        );
                    assert((session_result_view(result.0), result.1@) == new_outcome(
                        connector,
                        sent,
                        static_keys,
                        auth_key_id,
                        reconnect,
                        Some(host_challenge.bytes@),
                        first,
                        second,
                    ));
                }
                result
            },
        }
    }

    /// Performs the handshake over a transport of which something may have
    /// been asked already.
    fn handshake(
        transport: Transport<C>,
        auth_key_id: ObjectId,
        static_keys: StaticKeys,
        reconnect: bool,
        host_challenge: Challenge,
    ) -> (result: (Result<Session<C>, SessionError>, Ghost<Seq<Request>>))
        ensures
            exists|first: Delivery, second: Delivery|
                (session_result_view(result.0), result.1@) == #[trigger] handshake_outcome(
                    transport@.connector,
                    transport@.log,
                    static_keys,
                    host_challenge.bytes@,
                    auth_key_id,
                    reconnect,
                    first,
                    second,
                ),
    {
        let ghost connector = transport@.connector;
        let ghost sent = transport@.log;
        let mut transport = transport;
        let mut channel = Channel::new(&static_keys, host_challenge);
        let (reply, Ghost(first)) = create_session(&mut transport, &mut channel, auth_key_id);
        let (id, card_challenge, cryptogram) = match reply {
            Ok(parts) => parts,
            Err(e) => {
                let result = (Err(e), Ghost(transport@.log));
                assert((session_result_view(result.0), result.1@) == handshake_outcome(
                    connector,
                    sent,
                    static_keys,
                    host_challenge.bytes@,
                    auth_key_id,
                    reconnect,
                    first,
                    Delivery::NoToken,
                ));
                return result;
            },
        };
        match channel.receive_device_challenge(id, card_challenge, &cryptogram) {
            Ok(_) => {},
            Err(e) => {
                let result = (Err(e), Ghost(transport@.log));
                assert((session_result_view(result.0), result.1@) == handshake_outcome(
                    connector,
                    sent,
                    static_keys,
                    host_challenge.bytes@,
                    auth_key_id,
                    reconnect,
                    first,
                    Delivery::NoToken,
                ));
                return result;
            },
        }
        let (acknowledged, Ghost(second)) = authenticate(&mut transport, &mut channel);
        match acknowledged {
            Ok(_) => {},
            Err(e) => {
                let result = (Err(e), Ghost(transport@.log));
                assert((session_result_view(result.0), result.1@) == handshake_outcome(
                    connector,
                    sent,
                    static_keys,
                    host_challenge.bytes@,
                    auth_key_id,
                    reconnect,
                    first,
                    second,
                ));
                return result;
            },
        }
        let kept = if reconnect {
            Some(static_keys)
        } else {
            None
        };
        let record = Ghost(transport@.log);
        let session = Session { channel, transport, static_keys: kept };
        let result = (Ok(session), record);
        assert((session_result_view(result.0), result.1@) == handshake_outcome(
            connector,
            sent,
            static_keys,
            host_challenge.bytes@,
            auth_key_id,
            reconnect,
            first,
            second,
        ));
        result
    }

    /// The identifier that the device gave to this session: the identifier
    /// of its channel, which every envelope carries. It stays when the
    /// session is closed.
    pub fn id(&self) -> (id: SessionId)
        ensures
            id == self@.channel.id,
    {
        self.channel.id()
    }

    /// Whether the session can still carry commands.
    pub fn is_open(&self) -> (open: bool)
        ensures
            open == (self@.channel.state == ChannelState::Established),
    {
        self.channel.state() == ChannelState::Established
    }

    /// Asks the transport for its status and hands on what it reports. Only
    /// the record of requests changes.
    pub fn connector_status(&mut self) -> (result: Result<ConnectorStatus, SessionError>)
        ensures
            final(self)@ == (SessionView {
                sent: old(self)@.sent.push(Request::Status),
                ..old(self)@
            }),
            exists|report: Result<ConnectorStatus, ConnectorError>|
                result == #[trigger] status_outcome(report),
    {
        let report = self.transport.status();
        let ghost reported = report;
        let result = match report {
            Ok(status) => Ok(status),
            Err(error) => Err(SessionError::Connection { error }),
        };
        assert(result == status_outcome(reported));
        result
    }

    /// Sends one plain command through the session's transport and checks
    /// the reply. The channel is not touched. A command that is longer than a
    /// message may hold is not sent.
    pub fn send_command(&mut self, command: CommandMessage) -> (result: Result<
        ResponseMessage,
        SessionError,
    >)
        ensures
            command@.data.len() > MAX_MSG_SIZE ==> final(self)@ == old(self)@ && result == Err::<
                ResponseMessage,
                SessionError,
            >(SessionError::MessageTooLong { actual: command@.data.len() as usize }),
            command@.data.len() <= MAX_MSG_SIZE ==> exists|delivery: Delivery|
                final(self)@ == #[trigger] old(self)@.plain_exchange(command@, delivery)
                    && response_result_view(result) == plain_outcome(
                    command@.command_type,
                    delivery,
                ),
    {
        if command.data.len() > MAX_MSG_SIZE {
            return Err(SessionError::MessageTooLong { actual: command.data.len() });
        }
        let ghost before = self@;
        let (result, Ghost(delivery)) = send_plain(&mut self.transport, &command);
        assert(self@ == before.plain_exchange(command@, delivery));
        result
    }

    /// Encrypts a command, sends it, and verifies, decrypts and checks the
    /// response. Returns the payload of the response.
    ///
    /// The envelope that goes out decrypts back to the command: under the
    /// channel's encryption key and the initial vector of the current
    /// exchange, its payload is the encryption of the command's bytes.
    pub fn send_encrypted_command(&mut self, command_type: CommandType, data: Vec<u8>) -> (result:
        Result<Vec<u8>, SessionError>)
        ensures
            exists|delivery: Delivery|
                (final(self)@, payload_result_view(result)) == #[trigger] old(
                    self,
                )@.exchange_outcome(command_type, data@, delivery),
            old(self)@.channel.encrypt_command(
                CommandView { command_type, session_id: None, data: data@, mac: None },
            ).1 matches Ok(envelope) ==> aes128_cbc_decrypt(
                old(self)@.channel.enc_key,
                icv(old(self)@.channel.enc_key, old(self)@.channel.counter),
                envelope.data,
            ) == Some(
                (CommandView { command_type, session_id: None, data: data@, mac: None }).encode(),
            ),
    {
        let ghost before = self@;
        let saved = self.channel.snapshot();
        let command = CommandMessage { command_type, session_id: None, data, mac: None };
        let envelope = match self.channel.encrypt_command(command) {
            Ok(envelope) => envelope,
            Err(e) => {
                assert(before.exchange_outcome(command_type, data@, Delivery::NoToken) == (
                    before,
                    Err::<Seq<u8>, SessionError>(e),
                ));
                return Err(e);
            },
        };
        let (reply, Ghost(delivery)) = send_plain(&mut self.transport, &envelope);
        let reply = match reply {
            Ok(reply) => reply,
            Err(e) => {
                self.channel = saved;
                assert(before.exchange_outcome(command_type, data@, delivery) == (
                    self@,
                    Err::<Seq<u8>, SessionError>(e),
                ));
                return Err(e);
            },
        };
        let response = match self.channel.decrypt_response(reply) {
            Ok(response) => response,
            Err(e) => {
                self.channel = saved;
                assert(before.exchange_outcome(command_type, data@, delivery) == (
                    self@,
                    Err::<Seq<u8>, SessionError>(e),
                ));
                return Err(e);
            },
        };
        let result = check_decrypted_response(command_type, response);
        assert(before.exchange_outcome(command_type, data@, delivery) == (
            self@,
            payload_result_view(result),
        ));
        result
    }

    /// Closes the session: asks the device to close it, once, whatever the
    /// answer, and wipes the channel. A session that is already closed is
    /// left as it is, and the device is not asked again.
    pub fn close(&mut self)
        ensures
            exists|delivery: Delivery| final(self)@ == #[trigger] old(self)@.close_outcome(delivery),
            final(self)@.sent.len() <= old(self)@.sent.len() + 1,
            old(self)@.channel.state != ChannelState::Established ==> final(self)@.sent == old(
                self,
            )@.sent,
    {
        let ghost before = self@;
        let answer = self.send_encrypted_command(CommandType::CloseSession, Vec::new());
        let ghost delivery = choose|delivery: Delivery|
            (self@, payload_result_view(answer)) == #[trigger] before.exchange_outcome(
                CommandType::CloseSession,
                Seq::empty(),
                delivery,
            );
        self.channel.close();
        assert(self@ == before.close_outcome(delivery));
    }
}

} // verus!
