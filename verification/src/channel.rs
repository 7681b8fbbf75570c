//! The secure channel: key derivation, cryptograms, and the encryption and
//! authentication of every message of a session.
//!
//! A channel walks through the handshake in the order of `ChannelState`.
//! Session keys are derived from the static keys and both challenges; the
//! device proves that it holds the static keys by its cryptogram, the host by
//! its own. Once established, the channel encrypts each command under the
//! session encryption key, with an initial vector made from a counter, and
//! authenticates it with a tag computed over the tag of the command before
//! it. A response is authenticated over that same chaining value, so a
//! response belongs to exactly one command.

use vstd::prelude::*;
use crate::bytes::{append, append_be16, array8, be16, be32};
use crate::command_type::CommandType;
use crate::error::SessionError;
use crate::message::{
    mac_view, parse_response, response_result_view, CommandMessage, CommandView, ResponseMessage,
    ResponseView, SessionId,
};
use crate::primitives::{
    aes128_cbc_decrypt, aes128_cbc_encrypt, aes128_encrypt_block, cbc_decrypt, cbc_encrypt, cmac,
    cmac_aes128, ct_eq, encrypt_block, random_bytes,
};
use crate::static_keys::StaticKeys;
use crate::{
    ObjectId, BLOCK_SIZE, CHALLENGE_SIZE, CRYPTOGRAM_SIZE, KEY_SIZE, MAC_SIZE,
    MAX_COMMANDS_PER_SESSION, MAX_MSG_SIZE,
};

verus! {

/// A random value that one side contributes to a handshake. It is used once.
#[derive(Clone, Copy, Debug, PartialEq, Eq)]
pub struct Challenge {
    /// The eight bytes of the challenge.
    pub bytes: [u8; 8],
}

impl Challenge {
    /// A fresh challenge from the system's random source, or `None` where
    /// the source fails.
    pub fn random() -> (challenge: Option<Challenge>) {
        match random_bytes::<8>() {
            Some(bytes) => Some(Challenge { bytes }),
            None => None,
        }
    }
}

/// Where a channel stands in its life.
#[derive(Clone, Copy, Debug, PartialEq, Eq, Structural)]
pub enum ChannelState {
    /// The host holds its challenge; nothing has been sent.
    Created,
    /// The request to open a session is on its way.
    AwaitingDeviceChallenge,
    /// The device's cryptogram has been verified.
    DeviceAuthenticated,
    /// The host's cryptogram is on its way.
    HostAuthenticating,
    /// Both sides are authenticated: commands can be exchanged.
    Established,
    /// The channel is closed for good and holds no key.
    Closed,
}

/// `n` zero bytes.
pub open spec fn zeros(n: nat) -> Seq<u8> {
    Seq::new(n, |i: int| 0u8)
}

/// The input of a key derivation: a label of eleven zero bytes and the
/// derivation constant, a zero separator, the number of bits asked for, the
/// block counter 1, and the context.
pub open spec fn derivation_input(constant: u8, bits: int, context: Seq<u8>) -> Seq<u8> {
    zeros(11) + seq![constant, 0x00u8] + be16(bits) + seq![0x01u8] + context
}

/// `len` bytes derived from `key` for the purpose that `constant` names.
pub open spec fn derive(key: Seq<u8>, constant: u8, context: Seq<u8>, len: int) -> Seq<u8> {
    cmac_aes128(key, derivation_input(constant, len * 8, context)).subrange(0, len)
}

/// The session encryption key.
pub open spec fn session_enc_key(static_enc: Seq<u8>, host: Seq<u8>, card: Seq<u8>) -> Seq<u8> {
    derive(static_enc, 0x04, host + card, 16)
}

/// The session key that authenticates commands.
pub open spec fn session_mac_key(static_mac: Seq<u8>, host: Seq<u8>, card: Seq<u8>) -> Seq<u8> {
    derive(static_mac, 0x06, host + card, 16)
}

/// The session key that authenticates responses.
pub open spec fn session_rmac_key(static_mac: Seq<u8>, host: Seq<u8>, card: Seq<u8>) -> Seq<u8> {
    derive(static_mac, 0x07, host + card, 16)
}

/// The cryptogram by which the device proves that it holds the static keys.
pub open spec fn card_cryptogram(mac_key: Seq<u8>, host: Seq<u8>, card: Seq<u8>) -> Seq<u8> {
    derive(mac_key, 0x00, host + card, 8)
}

/// The cryptogram by which the host proves that it holds the static keys.
pub open spec fn host_cryptogram(mac_key: Seq<u8>, host: Seq<u8>, card: Seq<u8>) -> Seq<u8> {
    derive(mac_key, 0x01, host + card, 8)
}

/// What a tag is computed over: the chaining value, the type byte of the
/// message, the length of the message's body, the session, and the payload.
pub open spec fn mac_input(chaining: Seq<u8>, type_byte: u8, id: SessionId, data: Seq<u8>) -> Seq<
    u8,
> {
    chaining + seq![type_byte] + be16((1 + data.len() + MAC_SIZE) as int) + seq![id.value] + data
}

/// The initial vector of the exchange with the given number: the encryption
/// of a block that holds the counter in its last four bytes.
pub open spec fn icv(enc_key: Seq<u8>, counter: u32) -> Seq<u8> {
    aes128_encrypt_block(enc_key, zeros(12) + be32(counter as int))
}

/// What a channel holds, as plain values.
pub struct ChannelView {
    pub state: ChannelState,
    pub static_enc_key: Seq<u8>,
    pub static_mac_key: Seq<u8>,
    pub host_challenge: Seq<u8>,
    pub host_cryptogram: Seq<u8>,
    pub id: SessionId,
    pub enc_key: Seq<u8>,
    pub mac_key: Seq<u8>,
    pub rmac_key: Seq<u8>,
    pub chaining: Seq<u8>,
    pub counter: u32,
}

impl ChannelView {
    /// Every key and value has its length.
    pub open spec fn wf(self) -> bool {
        &&& self.static_enc_key.len() == KEY_SIZE
        &&& self.static_mac_key.len() == KEY_SIZE
        &&& self.host_challenge.len() == CHALLENGE_SIZE
        &&& self.host_cryptogram.len() == CRYPTOGRAM_SIZE
        &&& self.enc_key.len() == KEY_SIZE
        &&& self.mac_key.len() == KEY_SIZE
        &&& self.rmac_key.len() == KEY_SIZE
        &&& self.chaining.len() == BLOCK_SIZE
    }

    /// A channel before its handshake.
    pub open spec fn created(static_enc_key: Seq<u8>, static_mac_key: Seq<u8>, host: Seq<u8>) -> ChannelView {
        ChannelView {
            state: ChannelState::Created,
            static_enc_key,
            static_mac_key,
            host_challenge: host,
            host_cryptogram: zeros(8),
            id: SessionId { value: 0 },
            enc_key: zeros(16),
            mac_key: zeros(16),
            rmac_key: zeros(16),
            chaining: zeros(16),
            counter: 0,
        }
    }

    /// A closed channel: every key and value is wiped. Only the session's
    /// identifier, which is no secret, is kept.
    pub open spec fn closed(id: SessionId) -> ChannelView {
        ChannelView {
            state: ChannelState::Closed,
            static_enc_key: zeros(16),
            static_mac_key: zeros(16),
            host_challenge: zeros(8),
            host_cryptogram: zeros(8),
            id,
            enc_key: zeros(16),
            mac_key: zeros(16),
            rmac_key: zeros(16),
            chaining: zeros(16),
            counter: 0,
        }
    }

    /// The request that opens a session: the authentication key's identifier
    /// and the host's challenge, outside any session.
    pub open spec fn create_session(self, auth_key_id: ObjectId) -> (ChannelView, CommandView) {
        (
            ChannelView { state: ChannelState::AwaitingDeviceChallenge, ..self },
            CommandView {
                command_type: CommandType::CreateSession,
                session_id: None,
                data: be16(auth_key_id as int) + self.host_challenge,
                mac: None,
            },
        )
    }

    /// The channel once the device has answered: with the session keys in
    /// place of the static keys if the device's cryptogram is the expected
    /// one, closed otherwise.
    pub open spec fn receive_device_challenge(
        self,
        id: SessionId,
        card: Seq<u8>,
        cryptogram: Seq<u8>,
    ) -> (ChannelView, Result<(), SessionError>) {
        let mac_key = session_mac_key(self.static_mac_key, self.host_challenge, card);
        if cryptogram == card_cryptogram(mac_key, self.host_challenge, card) {
            (
                ChannelView {
                    state: ChannelState::DeviceAuthenticated,
                    static_enc_key: zeros(16),
                    static_mac_key: zeros(16),
                    host_challenge: zeros(8),
                    host_cryptogram: host_cryptogram(mac_key, self.host_challenge, card),
                    id,
                    enc_key: session_enc_key(self.static_enc_key, self.host_challenge, card),
                    mac_key,
                    rmac_key: session_rmac_key(self.static_mac_key, self.host_challenge, card),
                    chaining: zeros(16),
                    counter: 0,
                },
                Ok(()),
            )
        } else {
            (ChannelView::closed(self.id), Err(SessionError::CryptogramMismatch))
        }
    }

    /// The full tag of a command with this type and payload on this channel.
    pub open spec fn command_tag(self, command_type: CommandType, data: Seq<u8>) -> Seq<u8> {
        cmac_aes128(self.mac_key, mac_input(self.chaining, command_type.code(), self.id, data))
    }

    /// A command with its tag, and the channel with that tag as its chaining value.
    pub open spec fn command_with_mac(self, command_type: CommandType, data: Seq<u8>) -> (
        ChannelView,
        CommandView,
    ) {
        let tag = self.command_tag(command_type, data);
        (
            ChannelView { chaining: tag, ..self },
            CommandView {
                command_type,
                session_id: Some(self.id),
                data,
                mac: Some(tag.subrange(0, MAC_SIZE as int)),
            },
        )
    }

    /// The command that carries the host's cryptogram.
    pub open spec fn authenticate_session(self) -> (ChannelView, CommandView) {
        let (next, command) = self.command_with_mac(
            CommandType::AuthSession,
            self.host_cryptogram,
        );
        (ChannelView { state: ChannelState::HostAuthenticating, ..next }, command)
    }

    /// The channel once the device has acknowledged the host's cryptogram:
    /// established, with the counter at 1, if the acknowledgement is empty;
    /// closed otherwise.
    pub open spec fn finish_authenticate_session(self, response: ResponseView) -> (
        ChannelView,
        Result<(), SessionError>,
    ) {
        if response.data.len() == 0 {
            (ChannelView { state: ChannelState::Established, counter: 1, ..self }, Ok(()))
        } else {
            (
                ChannelView::closed(self.id),
                Err(SessionError::UnexpectedPayload { actual: response.data.len() as usize }),
            )
        }
    }

    /// The payload of the envelope that carries a command with these bytes
    /// in the current exchange of this channel.
    pub open spec fn ciphertext_of(self, plaintext: Seq<u8>) -> Seq<u8> {
        aes128_cbc_encrypt(self.enc_key, icv(self.enc_key, self.counter), plaintext)
    }

    /// What the tag of the envelope of `command` is computed over.
    pub open spec fn envelope_mac_input(self, command: CommandView) -> Seq<u8> {
        mac_input(
            self.chaining,
            CommandType::SessionMessage.code(),
            self.id,
            self.ciphertext_of(command.encode()),
        )
    }

    /// A command inside its authenticated envelope, and the channel
    /// afterwards. The channel is unchanged where this fails: where the
    /// channel is not established, the command or its encrypted form is
    /// longer than a message may hold, or the session has carried its share
    /// of commands.
    pub open spec fn encrypt_command(self, command: CommandView) -> (
        ChannelView,
        Result<CommandView, SessionError>,
    ) {
        let ciphertext = self.ciphertext_of(command.encode());
        if self.state != ChannelState::Established {
            (self, Err(SessionError::SessionClosed))
        } else if command.data.len() > MAX_MSG_SIZE {
            (self, Err(SessionError::MessageTooLong { actual: command.data.len() as usize }))
        } else if self.counter >= MAX_COMMANDS_PER_SESSION {
            (self, Err(SessionError::SessionLimitReached))
        } else if ciphertext.len() > MAX_MSG_SIZE {
            (self, Err(SessionError::MessageTooLong { actual: ciphertext.len() as usize }))
        } else {
            let (next, envelope) = self.command_with_mac(CommandType::SessionMessage, ciphertext);
            (next, Ok(envelope))
        }
    }

    /// The full tag that a response must carry on this channel.
    pub open spec fn response_tag(self, response: ResponseView) -> Seq<u8> {
        cmac_aes128(
            self.rmac_key,
            mac_input(self.chaining, response.code.code(), self.id, response.data),
        )
    }

    /// Why an envelope is refused before its payload is decrypted, if it is:
    /// the channel is not established; the envelope names no session, or
    /// another one; it has no tag; it is too long for its length field; the
    /// session has carried its share of commands; or its tag is not the one
    /// computed for it.
    pub open spec fn refusal(self, response: ResponseView) -> Option<SessionError> {
        if self.state != ChannelState::Established {
            Some(SessionError::SessionClosed)
        } else if response.session_id is None {
            Some(SessionError::MissingSessionId)
        } else if response.session_id->Some_0 != self.id {
            Some(
                SessionError::SessionIdMismatch {
                    expected_id: self.id.value,
                    actual_id: response.session_id->Some_0.value,
                },
            )
        } else if response.mac is None {
            Some(SessionError::MissingMac { actual: 0 })
        } else if response.data.len() + 9 > 0xffff {
            Some(SessionError::MessageTooLong { actual: response.data.len() as usize })
        } else if self.counter >= MAX_COMMANDS_PER_SESSION {
            Some(SessionError::SessionLimitReached)
        } else if response.mac->Some_0 != self.response_tag(response).subrange(
            0,
            MAC_SIZE as int,
        ) {
            Some(SessionError::MacMismatch)
        } else {
            None
        }
    }

    /// The response inside an authenticated envelope, and the channel
    /// afterwards. The tag is verified first; only then is the payload
    /// decrypted and parsed. The channel is unchanged where any of this fails,
    /// and has counted one exchange more where it succeeds.
    pub open spec fn decrypt_response(self, response: ResponseView) -> (
        ChannelView,
        Result<ResponseView, SessionError>,
    ) {
        match self.refusal(response) {
            Some(e) => (self, Err(e)),
            None => match aes128_cbc_decrypt(
                self.enc_key,
                icv(self.enc_key, self.counter),
                response.data,
            ) {
                None => (self, Err(SessionError::DecryptFailed)),
                Some(plaintext) => match parse_response(plaintext) {
                    Err(e) => (self, Err(e)),
                    Ok(inner) => (
                        ChannelView { counter: (self.counter + 1) as u32, ..self },
                        Ok(ResponseView { session_id: Some(self.id), ..inner }),
                    ),
                },
            },
        }
    }
}

/// Computes the message authentication code that a derivation of `bits`
/// bits takes its bytes from.
fn derivation_tag(key: &[u8; 16], constant: u8, bits: u16, context: &[u8]) -> (tag: [u8; 16])
    ensures
        tag@ == cmac_aes128(key@, derivation_input(constant, bits as int, context@)),
{
    let mut input: Vec<u8> = vec![0u8, 0u8, 0u8, 0u8, 0u8, 0u8, 0u8, 0u8, 0u8, 0u8, 0u8];
    input.push(constant);
    input.push(0x00);
    append_be16(&mut input, bits);
    input.push(0x01);
    append(&mut input, context);
    assert(input@ == derivation_input(constant, bits as int, context@));
    cmac(key, input.as_slice())
}

/// Derives a 16-byte key.
fn derive_key(key: &[u8; 16], constant: u8, context: &[u8]) -> (out: [u8; 16])
    ensures
        out@ == derive(key@, constant, context@, 16),
{
    let out = derivation_tag(key, constant, 128, context);
    assert(out@.subrange(0, 16) == out@);
    out
}

/// Derives an 8-byte cryptogram.
fn derive_cryptogram(key: &[u8; 16], constant: u8, context: &[u8]) -> (out: [u8; 8])
    ensures
        out@ == derive(key@, constant, context@, 8),
{
    let tag = derivation_tag(key, constant, 64, context);
    array8(tag.as_slice(), 0)
}

/// Computes the tag of a message.
fn compute_tag(key: &[u8; 16], chaining: &[u8; 16], type_byte: u8, id: SessionId, data: &[u8]) -> (tag:
    [u8; 16])
    requires
        data@.len() + 9 <= 0xffff,
    ensures
        tag@ == cmac_aes128(key@, mac_input(chaining@, type_byte, id, data@)),
{
    let mut input: Vec<u8> = Vec::new();
    append(&mut input, chaining.as_slice());
    input.push(type_byte);
    append_be16(&mut input, (1 + data.len() + 8) as u16);
    input.push(id.to_u8());
    append(&mut input, data);
    assert(input@ == mac_input(chaining@, type_byte, id, data@));
    cmac(key, input.as_slice())
}

/// Computes the initial vector of an exchange.
fn compute_icv(enc_key: &[u8; 16], counter: u32) -> (out: [u8; 16])
    ensures
        out@ == icv(enc_key@, counter),
{
    let block: [u8; 16] = [
        0,
        0,
        0,
        0,
        0,
        0,
        0,
        0,
        0,
        0,
        0,
        0,
        ((counter / 16777216) % 256) as u8,
        ((counter / 65536) % 256) as u8,
        ((counter / 256) % 256) as u8,
        (counter % 256) as u8,
    ];
    assert(block@ == zeros(12) + be32(counter as int));
    encrypt_block(enc_key, &block)
}

/// The stateful engine of one session.
pub struct Channel {
    state: ChannelState,
    static_keys: StaticKeys,
    host_challenge: [u8; 8],
    host_cryptogram: [u8; 8],
    id: SessionId,
    enc_key: [u8; 16],
    mac_key: [u8; 16],
    rmac_key: [u8; 16],
    mac_chaining_value: [u8; 16],
    counter: u32,
}

impl View for Channel {
    type V = ChannelView;

    closed spec fn view(&self) -> ChannelView {
        ChannelView {
            state: self.state,
            static_enc_key: self.static_keys.enc_key@,
            static_mac_key: self.static_keys.mac_key@,
            host_challenge: self.host_challenge@,
            host_cryptogram: self.host_cryptogram@,
            id: self.id,
            enc_key: self.enc_key@,
            mac_key: self.mac_key@,
            rmac_key: self.rmac_key@,
            chaining: self.mac_chaining_value@,
            counter: self.counter,
        }
    }
}

impl Channel {
    /// A channel for a handshake under the given static keys and host challenge.
    pub fn new(static_keys: &StaticKeys, host_challenge: Challenge) -> (channel: Channel)
        ensures
            channel@ == ChannelView::created(
                static_keys.enc_key@,
                static_keys.mac_key@,
                host_challenge.bytes@,
            ),
            channel@.wf(),
    {
        let channel = Channel {
            state: ChannelState::Created,
            static_keys: *static_keys,
            host_challenge: host_challenge.bytes,
            host_cryptogram: [0u8; 8],
            id: SessionId { value: 0 },
            enc_key: [0u8; 16],
            mac_key: [0u8; 16],
            rmac_key: [0u8; 16],
            mac_chaining_value: [0u8; 16],
            counter: 0,
        };
        assert(channel.host_cryptogram@ == zeros(8));
        assert(channel.enc_key@ == zeros(16));
        channel
    }

    /// A copy of the channel as it stands, to return to if an exchange does
    /// not complete.
    pub(crate) fn snapshot(&self) -> (copy: Channel)
        ensures
            copy@ == self@,
    {
        Channel {
            state: self.state,
            static_keys: self.static_keys,
            host_challenge: self.host_challenge,
            host_cryptogram: self.host_cryptogram,
            id: self.id,
            enc_key: self.enc_key,
            mac_key: self.mac_key,
            rmac_key: self.rmac_key,
            mac_chaining_value: self.mac_chaining_value,
            counter: self.counter,
        }
    }

    /// Every channel is well formed.
    pub proof fn lemma_wf(&self)
        ensures
            self@.wf(),
    {
    }

    /// Where the channel stands.
    pub fn state(&self) -> (state: ChannelState)
        ensures
            state == self@.state,
    {
        self.state
    }

    /// The session that the channel belongs to, once the device has named it.
    pub fn id(&self) -> (id: SessionId)
        ensures
            id == self@.id,
    {
        self.id
    }

    /// Number of the next exchange.
    pub fn counter(&self) -> (counter: u32)
        ensures
            counter == self@.counter,
    {
        self.counter
    }

    /// Wipes every key and closes the channel.
    pub fn close(&mut self)
        ensures
            final(self)@ == ChannelView::closed(old(self)@.id),
    {
        self.state = ChannelState::Closed;
        self.static_keys = StaticKeys { enc_key: [0u8; 16], mac_key: [0u8; 16] };
        self.host_challenge = [0u8; 8];
        self.host_cryptogram = [0u8; 8];
        self.enc_key = [0u8; 16];
        self.mac_key = [0u8; 16];
        self.rmac_key = [0u8; 16];
        self.mac_chaining_value = [0u8; 16];
        self.counter = 0;
        assert(self.host_cryptogram@ == zeros(8));
        assert(self.enc_key@ == zeros(16));
    }

    /// Builds the request that opens a session.
    pub fn create_session(&mut self, auth_key_id: ObjectId) -> (command: CommandMessage)
        requires
            old(self)@.state == ChannelState::Created,
        ensures
            (final(self)@, command@) == old(self)@.create_session(auth_key_id),
            command@.wf(),
    {
        let mut data: Vec<u8> = Vec::new();
        append_be16(&mut data, auth_key_id);
        append(&mut data, self.host_challenge.as_slice());
        self.state = ChannelState::AwaitingDeviceChallenge;
        CommandMessage { command_type: CommandType::CreateSession, session_id: None, data, mac: None }
    }

    /// Takes the device's answer to the request that opens a session: derives
    /// the session keys and verifies the device's cryptogram, in constant time.
    /// On a mismatch the channel is closed.
    pub fn receive_device_challenge(
        &mut self,
        id: SessionId,
        card_challenge: Challenge,
        card_cryptogram: &[u8; 8],
    ) -> (result: Result<(), SessionError>)
        requires
            old(self)@.state == ChannelState::AwaitingDeviceChallenge,
        ensures
            (final(self)@, result) == old(self)@.receive_device_challenge(
                id,
                card_challenge.bytes@,
                card_cryptogram@,
            ),
    {
        let mut context: Vec<u8> = Vec::new();
        append(&mut context, self.host_challenge.as_slice());
        append(&mut context, card_challenge.bytes.as_slice());
        let enc_key = derive_key(&self.static_keys.enc_key, 0x04, context.as_slice());
        let mac_key = derive_key(&self.static_keys.mac_key, 0x06, context.as_slice());
        let rmac_key = derive_key(&self.static_keys.mac_key, 0x07, context.as_slice());
        let expected = derive_cryptogram(&mac_key, 0x00, context.as_slice());
        if !ct_eq(expected.as_slice(), card_cryptogram.as_slice()) {
            self.close();
            return Err(SessionError::CryptogramMismatch);
        }
        self.host_cryptogram = derive_cryptogram(&mac_key, 0x01, context.as_slice());
        self.state = ChannelState::DeviceAuthenticated;
        self.static_keys = StaticKeys { enc_key: [0u8; 16], mac_key: [0u8; 16] };
        self.host_challenge = [0u8; 8];
        self.id = id;
        self.enc_key = enc_key;
        self.mac_key = mac_key;
        self.rmac_key = rmac_key;
        self.mac_chaining_value = [0u8; 16];
        self.counter = 0;
        assert(self.host_challenge@ == zeros(8));
        assert(self.mac_chaining_value@ == zeros(16));
        Ok(())
    }

    /// Authenticates a message body and chains the channel to its tag.
    fn command_with_mac(&mut self, command_type: CommandType, data: Vec<u8>) -> (command:
        CommandMessage)
        requires
            data@.len() <= MAX_MSG_SIZE,
        ensures
            (final(self)@, command@) == old(self)@.command_with_mac(command_type, data@),
            command@.wf(),
    {
        let tag = compute_tag(
            &self.mac_key,
            &self.mac_chaining_value,
            command_type.to_u8(),
            self.id,
            data.as_slice(),
        );
        self.mac_chaining_value = tag;
        CommandMessage {
            command_type,
            session_id: Some(self.id),
            data,
            mac: Some(array8(tag.as_slice(), 0)),
        }
    }

    /// Builds the command that carries the host's cryptogram to the device.
    pub fn authenticate_session(&mut self) -> (command: CommandMessage)
        requires
            old(self)@.state == ChannelState::DeviceAuthenticated,
        ensures
            (final(self)@, command@) == old(self)@.authenticate_session(),
            command@.wf(),
    {
        let mut data: Vec<u8> = Vec::new();
        append(&mut data, self.host_cryptogram.as_slice());
        let command = self.command_with_mac(CommandType::AuthSession, data);
        self.state = ChannelState::HostAuthenticating;
        command
    }

    /// Takes the device's acknowledgement of the host's cryptogram. An
    /// acknowledgement with a payload closes the channel.
    pub fn finish_authenticate_session(&mut self, response: &ResponseMessage) -> (result: Result<
        (),
        SessionError,
    >)
        requires
            old(self)@.state == ChannelState::HostAuthenticating,
        ensures
            (final(self)@, result) == old(self)@.finish_authenticate_session(response@),
    {
        if response.data.len() != 0 {
            self.close();
            return Err(SessionError::UnexpectedPayload { actual: response.data.len() });
        }
        self.state = ChannelState::Established;
        self.counter = 1;
        Ok(())
    }

    /// Encrypts a command and wraps it in an authenticated envelope.
    pub fn encrypt_command(&mut self, command: CommandMessage) -> (result: Result<
        CommandMessage,
        SessionError,
    >)
        ensures
            final(self)@ == old(self)@.encrypt_command(command@).0,
            (match result {
                Ok(envelope) => Ok(envelope@),
                Err(e) => Err(e),
            }) == old(self)@.encrypt_command(command@).1,
            result matches Ok(envelope) ==> envelope@.wf() && aes128_cbc_decrypt(
                old(self)@.enc_key,
                icv(old(self)@.enc_key, old(self)@.counter),
                envelope@.data,
            ) == Some(command@.encode()),
    {
        if self.state != ChannelState::Established {
            return Err(SessionError::SessionClosed);
        }
        if command.data.len() > MAX_MSG_SIZE {
            return Err(SessionError::MessageTooLong { actual: command.data.len() });
        }
        if self.counter >= MAX_COMMANDS_PER_SESSION {
            return Err(SessionError::SessionLimitReached);
        }
        let plaintext = command.serialize();
        let iv = compute_icv(&self.enc_key, self.counter);
        let ciphertext = cbc_encrypt(&self.enc_key, &iv, plaintext.as_slice());
        if ciphertext.len() > MAX_MSG_SIZE {
            return Err(SessionError::MessageTooLong { actual: ciphertext.len() });
        }
        Ok(self.command_with_mac(CommandType::SessionMessage, ciphertext))
    }

    /// Verifies the tag of a response envelope, in constant time, and only
    /// then decrypts and parses what it carries.
    pub fn decrypt_response(&mut self, response: ResponseMessage) -> (result: Result<
        ResponseMessage,
        SessionError,
    >)
        ensures
            (final(self)@, response_result_view(result)) == old(self)@.decrypt_response(
                response@,
            ),
    {
        if self.state != ChannelState::Established {
            return Err(SessionError::SessionClosed);
        }
        let session_id = match response.session_id {
            Some(id) => id,
            None => {
                return Err(SessionError::MissingSessionId);
            },
        };
        if session_id.to_u8() != self.id.to_u8() {
            return Err(
                SessionError::SessionIdMismatch {
                    expected_id: self.id.to_u8(),
                    actual_id: session_id.to_u8(),
                },
            );
        }
        let mac = match response.mac {
            Some(mac) => mac,
            None => {
                return Err(SessionError::MissingMac { actual: 0 });
            },
        };
        if response.data.len() > 0xffff - 9 {
            return Err(SessionError::MessageTooLong { actual: response.data.len() });
        }
        if self.counter >= MAX_COMMANDS_PER_SESSION {
            return Err(SessionError::SessionLimitReached);
        }
        let tag = compute_tag(
            &self.rmac_key,
            &self.mac_chaining_value,
            response.code.to_u8(),
            self.id,
            response.data.as_slice(),
        );
        let expected = array8(tag.as_slice(), 0);
        if !ct_eq(expected.as_slice(), mac.as_slice()) {
            return Err(SessionError::MacMismatch);
        }
        let iv = compute_icv(&self.enc_key, self.counter);
        let plaintext = match cbc_decrypt(&self.enc_key, &iv, response.data.as_slice()) {
            Some(plaintext) => plaintext,
            None => {
                return Err(SessionError::DecryptFailed);
            },
        };
        let mut inner = match ResponseMessage::parse(plaintext) {
            Ok(inner) => inner,
            Err(e) => {
                return Err(e);
            },
        };
        inner.session_id = Some(self.id);
        self.counter = self.counter + 1;
        Ok(inner)
    }
}

} // verus!
