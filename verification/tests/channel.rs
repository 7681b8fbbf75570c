//! The channel, step by step, against values computed here from the block
//! cipher and the message authentication code.

use aes::cipher::generic_array::GenericArray;
use aes::cipher::{BlockEncrypt, KeyInit};
use aes::Aes128;
use cmac::{Cmac, Mac};

use yubihsm::channel::{Challenge, Channel, ChannelState};
use yubihsm::command_type::CommandType;
use yubihsm::error::{SessionError, SessionErrorKind};
use yubihsm::message::{CommandMessage, ResponseMessage, SessionId};
use yubihsm::response_code::ResponseCode;
use yubihsm::static_keys::StaticKeys;

const ENC_KEY: [u8; 16] = [0x2b, 0x7e, 0x15, 0x16, 0x28, 0xae, 0xd2, 0xa6, 0xab, 0xf7, 0x15, 0x88, 0x09, 0xcf, 0x4f, 0x3c];
const MAC_KEY: [u8; 16] = [0x00, 0x01, 0x02, 0x03, 0x04, 0x05, 0x06, 0x07, 0x08, 0x09, 0x0a, 0x0b, 0x0c, 0x0d, 0x0e, 0x0f];
const HOST: [u8; 8] = [0x10, 0x11, 0x12, 0x13, 0x14, 0x15, 0x16, 0x17];
const CARD: [u8; 8] = [0x20, 0x21, 0x22, 0x23, 0x24, 0x25, 0x26, 0x27];

fn block_encrypt(key: &[u8; 16], block: [u8; 16]) -> [u8; 16] {
    let mut out = GenericArray::from(block);
    Aes128::new(&GenericArray::from(*key)).encrypt_block(&mut out);
    out.into()
}

fn cmac_of(key: &[u8; 16], message: &[u8]) -> [u8; 16] {
    let mut mac = <Cmac<Aes128> as Mac>::new_from_slice(key).unwrap();
    mac.update(message);
    mac.finalize().into_bytes().into()
}

fn derive(key: &[u8; 16], constant: u8, len: usize) -> Vec<u8> {
    let mut input = vec![0u8; 11];
    input.extend_from_slice(&[constant, 0x00, 0x00, (len * 8) as u8, 0x01]);
    input.extend_from_slice(&HOST);
    input.extend_from_slice(&CARD);
    cmac_of(key, &input)[..len].to_vec()
}

fn key_of(key: &[u8; 16], constant: u8) -> [u8; 16] {
    let mut out = [0u8; 16];
    out.copy_from_slice(&derive(key, constant, 16));
    out
}

fn icv(enc_key: &[u8; 16], counter: u32) -> [u8; 16] {
    let mut block = [0u8; 16];
    block[12..].copy_from_slice(&counter.to_be_bytes());
    block_encrypt(enc_key, block)
}

fn cbc_encrypt_blocks(key: &[u8; 16], iv: &[u8; 16], padded: &[u8]) -> Vec<u8> {
    assert_eq!(padded.len() % 16, 0);
    let mut previous = *iv;
    let mut out = Vec::new();
    for chunk in padded.chunks(16) {
        let mut block = [0u8; 16];
        for i in 0..16 {
            block[i] = chunk[i] ^ previous[i];
        }
        previous = block_encrypt(key, block);
        out.extend_from_slice(&previous);
    }
    out
}

fn cbc_encrypt(key: &[u8; 16], iv: &[u8; 16], message: &[u8]) -> Vec<u8> {
    let mut padded = message.to_vec();
    padded.push(0x80);
    while padded.len() % 16 != 0 {
        padded.push(0x00);
    }
    cbc_encrypt_blocks(key, iv, &padded)
}

fn mac_input(chaining: &[u8; 16], type_byte: u8, id: u8, data: &[u8]) -> Vec<u8> {
    let mut input = chaining.to_vec();
    input.push(type_byte);
    input.extend_from_slice(&((1 + data.len() + 8) as u16).to_be_bytes());
    input.push(id);
    input.extend_from_slice(data);
    input
}

fn tag8(key: &[u8; 16], input: &[u8]) -> [u8; 8] {
    let mut out = [0u8; 8];
    out.copy_from_slice(&cmac_of(key, input)[..8]);
    out
}

fn cryptogram(constant: u8) -> [u8; 8] {
    let mut out = [0u8; 8];
    out.copy_from_slice(&derive(&key_of(&MAC_KEY, 0x06), constant, 8));
    out
}

fn awaiting() -> Channel {
    let keys = StaticKeys::new(&ENC_KEY, &MAC_KEY).unwrap();
    let mut channel = Channel::new(&keys, Challenge { bytes: HOST });
    channel.create_session(0x0102);
    channel
}

/// An established channel of session 9 and its chaining value.
fn established() -> (Channel, [u8; 16]) {
    let mut channel = awaiting();
    channel
        .receive_device_challenge(SessionId { value: 9 }, Challenge { bytes: CARD }, &cryptogram(0))
        .unwrap();
    channel.authenticate_session();
    let empty = ResponseMessage::parse(vec![0x84, 0x00, 0x00]).unwrap();
    channel.finish_authenticate_session(&empty).unwrap();
    let chaining =
        cmac_of(&key_of(&MAC_KEY, 0x06), &mac_input(&[0; 16], 0x04, 9, &cryptogram(1)));
    (channel, chaining)
}

/// The envelope that a device would send for `inner` on exchange `counter`.
fn envelope_of(chaining: &[u8; 16], counter: u32, inner: &[u8]) -> ResponseMessage {
    let enc = key_of(&ENC_KEY, 0x04);
    let data = cbc_encrypt(&enc, &icv(&enc, counter), inner);
    sealed(chaining, data)
}

fn sealed(chaining: &[u8; 16], data: Vec<u8>) -> ResponseMessage {
    let mac = tag8(&key_of(&MAC_KEY, 0x07), &mac_input(chaining, 0x85, 9, &data));
    ResponseMessage {
        code: ResponseCode::Success(CommandType::SessionMessage),
        session_id: Some(SessionId { value: 9 }),
        data,
        mac: Some(mac),
    }
}

#[test]
fn the_primitives_give_their_published_values() {
    let block = block_encrypt(
        &MAC_KEY,
        [0x00, 0x11, 0x22, 0x33, 0x44, 0x55, 0x66, 0x77, 0x88, 0x99, 0xaa, 0xbb, 0xcc, 0xdd, 0xee, 0xff],
    );
    assert_eq!(
        block,
        [0x69, 0xc4, 0xe0, 0xd8, 0x6a, 0x7b, 0x04, 0x30, 0xd8, 0xcd, 0xb7, 0x80, 0x70, 0xb4, 0xc5, 0x5a]
    );
    assert_eq!(
        cmac_of(&ENC_KEY, &[]),
        [0xbb, 0x1d, 0x69, 0x29, 0xe9, 0x59, 0x37, 0x28, 0x7f, 0xa3, 0x7d, 0x12, 0x9b, 0x75, 0x67, 0x46]
    );
    assert_eq!(
        cmac_of(
            &ENC_KEY,
            &[0x6b, 0xc1, 0xbe, 0xe2, 0x2e, 0x40, 0x9f, 0x96, 0xe9, 0x3d, 0x7e, 0x11, 0x73, 0x93, 0x17, 0x2a]
        ),
        [0x07, 0x0a, 0x16, 0xb4, 0x6b, 0x4d, 0x41, 0x44, 0xf7, 0x9b, 0xdd, 0x9d, 0xd0, 0x4a, 0x28, 0x7c]
    );
}

#[test]
fn a_new_channel_asks_to_open_a_session() {
    let keys = StaticKeys::new(&ENC_KEY, &MAC_KEY).unwrap();
    let mut channel = Channel::new(&keys, Challenge { bytes: HOST });
    assert_eq!(channel.state(), ChannelState::Created);
    assert_eq!(channel.counter(), 0);
    let request = channel.create_session(0x0102);
    assert_eq!(channel.state(), ChannelState::AwaitingDeviceChallenge);
    assert_eq!(request.command_type, CommandType::CreateSession);
    assert_eq!(request.session_id, None);
    assert_eq!(request.mac, None);
    assert_eq!(request.data, vec![0x01, 0x02, 0x10, 0x11, 0x12, 0x13, 0x14, 0x15, 0x16, 0x17]);
    assert_eq!(
        request.serialize(),
        vec![0x03, 0x00, 0x0a, 0x01, 0x02, 0x10, 0x11, 0x12, 0x13, 0x14, 0x15, 0x16, 0x17]
    );
}

#[test]
fn the_device_cryptogram_of_the_session_keys_is_accepted() {
    let mut channel = awaiting();
    let result = channel.receive_device_challenge(
        SessionId { value: 9 },
        Challenge { bytes: CARD },
        &cryptogram(0),
    );
    assert_eq!(result, Ok(()));
    assert_eq!(channel.state(), ChannelState::DeviceAuthenticated);
    assert_eq!(channel.id(), SessionId { value: 9 });
}

#[test]
fn any_other_device_cryptogram_closes_the_channel() {
    for bit in 0..64 {
        let mut channel = awaiting();
        let mut wrong = cryptogram(0);
        wrong[bit / 8] ^= 1 << (bit % 8);
        let result = channel.receive_device_challenge(
            SessionId { value: 9 },
            Challenge { bytes: CARD },
            &wrong,
        );
        assert_eq!(result, Err(SessionError::CryptogramMismatch));
        assert_eq!(channel.state(), ChannelState::Closed);
        assert_eq!(channel.id(), SessionId { value: 0 });
    }
    let mut channel = awaiting();
    let result = channel.receive_device_challenge(
        SessionId { value: 9 },
        Challenge { bytes: CARD },
        &cryptogram(1),
    );
    assert_eq!(result.unwrap_err().kind(), SessionErrorKind::AuthFailed);
}

#[test]
fn a_cryptogram_for_other_challenges_closes_the_channel() {
    let mut channel = awaiting();
    let mut other = CARD;
    other[7] ^= 0x01;
    let result = channel.receive_device_challenge(
        SessionId { value: 9 },
        Challenge { bytes: other },
        &cryptogram(0),
    );
    assert_eq!(result, Err(SessionError::CryptogramMismatch));
    let keys = StaticKeys::new(&ENC_KEY, &MAC_KEY).unwrap();
    let mut host = HOST;
    host[0] ^= 0x80;
    let mut channel = Channel::new(&keys, Challenge { bytes: host });
    channel.create_session(0x0102);
    let result = channel.receive_device_challenge(
        SessionId { value: 9 },
        Challenge { bytes: CARD },
        &cryptogram(0),
    );
    assert_eq!(result, Err(SessionError::CryptogramMismatch));
    assert_eq!(channel.state(), ChannelState::Closed);
}

#[test]
fn the_host_cryptogram_goes_out_under_the_first_tag() {
    let mut channel = awaiting();
    channel
        .receive_device_challenge(SessionId { value: 9 }, Challenge { bytes: CARD }, &cryptogram(0))
        .unwrap();
    let command = channel.authenticate_session();
    assert_eq!(channel.state(), ChannelState::HostAuthenticating);
    assert_eq!(command.command_type, CommandType::AuthSession);
    assert_eq!(command.session_id, Some(SessionId { value: 9 }));
    assert_eq!(command.data, cryptogram(1).to_vec());
    let mac_key = key_of(&MAC_KEY, 0x06);
    assert_eq!(command.mac, Some(tag8(&mac_key, &mac_input(&[0; 16], 0x04, 9, &cryptogram(1)))));
}

#[test]
fn an_empty_acknowledgement_establishes_the_channel() {
    let (channel, _) = established();
    assert_eq!(channel.state(), ChannelState::Established);
    assert_eq!(channel.counter(), 1);
    assert_eq!(channel.id(), SessionId { value: 9 });
}

#[test]
fn an_acknowledgement_with_payload_closes_the_channel() {
    let mut channel = awaiting();
    channel
        .receive_device_challenge(SessionId { value: 9 }, Challenge { bytes: CARD }, &cryptogram(0))
        .unwrap();
    channel.authenticate_session();
    let chatty = ResponseMessage::parse(vec![0x84, 0x00, 0x01, 0x00]).unwrap();
    let result = channel.finish_authenticate_session(&chatty);
    assert_eq!(result, Err(SessionError::UnexpectedPayload { actual: 1 }));
    assert_eq!(channel.state(), ChannelState::Closed);
}

#[test]
fn a_command_is_encrypted_under_the_counter_and_chained() {
    let (mut channel, chaining) = established();
    let enc = key_of(&ENC_KEY, 0x04);
    let mac = key_of(&MAC_KEY, 0x06);
    let command = CommandMessage::new(CommandType::Echo, vec![0xca, 0xfe]).unwrap();
    let envelope = channel.encrypt_command(command).unwrap();
    let ciphertext = cbc_encrypt(&enc, &icv(&enc, 1), &[0x01, 0x00, 0x02, 0xca, 0xfe]);
    assert_eq!(envelope.command_type, CommandType::SessionMessage);
    assert_eq!(envelope.session_id, Some(SessionId { value: 9 }));
    assert_eq!(envelope.data, ciphertext);
    assert_eq!(envelope.mac, Some(tag8(&mac, &mac_input(&chaining, 0x05, 9, &ciphertext))));
    assert_eq!(channel.counter(), 1);
    let next = cmac_of(&mac, &mac_input(&chaining, 0x05, 9, &ciphertext));
    let again = channel
        .encrypt_command(CommandMessage::new(CommandType::Echo, vec![0xca, 0xfe]).unwrap())
        .unwrap();
    assert_eq!(again.data, ciphertext);
    assert_eq!(again.mac, Some(tag8(&mac, &mac_input(&next, 0x05, 9, &ciphertext))));
    assert_ne!(again.mac, envelope.mac);
}

#[test]
fn a_message_of_a_whole_block_gets_a_block_of_padding() {
    let (mut channel, _) = established();
    for (len, blocks) in [(0usize, 1usize), (12, 1), (13, 2), (28, 2), (29, 3), (2044, 128)] {
        let command = CommandMessage::new(CommandType::Echo, vec![0; len]).unwrap();
        assert_eq!(channel.encrypt_command(command).unwrap().data.len(), 16 * blocks);
    }
    let command = CommandMessage::new(CommandType::Echo, vec![0; 2045]).unwrap();
    assert_eq!(
        channel.encrypt_command(command),
        Err(SessionError::MessageTooLong { actual: 2064 })
    );
    let long = CommandMessage {
        command_type: CommandType::Echo,
        session_id: None,
        data: vec![0; 5000],
        mac: None,
    };
    assert_eq!(channel.encrypt_command(long), Err(SessionError::MessageTooLong { actual: 5000 }));
}

#[test]
fn a_response_is_verified_decrypted_and_counted() {
    let (mut channel, chaining) = established();
    let envelope = envelope_of(&chaining, 1, &[0x81, 0x00, 0x03, 0x0a, 0x0b, 0x0c]);
    let response = channel.decrypt_response(envelope).unwrap();
    assert_eq!(response.code, ResponseCode::Success(CommandType::Echo));
    assert_eq!(response.session_id, Some(SessionId { value: 9 }));
    assert_eq!(response.data, vec![0x0a, 0x0b, 0x0c]);
    assert_eq!(response.mac, None);
    assert_eq!(channel.counter(), 2);
    let envelope = envelope_of(&chaining, 2, &[0x7f, 0x00, 0x01, 0x02]);
    let response = channel.decrypt_response(envelope).unwrap();
    assert_eq!(response.code, ResponseCode::MemoryError);
    assert_eq!(response.data, vec![0x02]);
    assert_eq!(channel.counter(), 3);
}

#[test]
fn a_response_for_another_exchange_does_not_decrypt_to_itself() {
    let (mut channel, chaining) = established();
    let envelope = envelope_of(&chaining, 2, &[0x81, 0x00, 0x01, 0x0a]);
    assert_ne!(
        channel.decrypt_response(envelope).map(|r| r.data),
        Ok(vec![0x0a])
    );
}

#[test]
fn a_refused_response_leaves_the_channel_as_it_was() {
    let (mut channel, chaining) = established();
    let good = envelope_of(&chaining, 1, &[0x81, 0x00, 0x01, 0x0a]);

    let mut no_session = good.clone();
    no_session.session_id = None;
    assert_eq!(channel.decrypt_response(no_session), Err(SessionError::MissingSessionId));

    let mut other_session = good.clone();
    other_session.session_id = Some(SessionId { value: 3 });
    assert_eq!(
        channel.decrypt_response(other_session),
        Err(SessionError::SessionIdMismatch { expected_id: 9, actual_id: 3 })
    );

    let mut no_mac = good.clone();
    no_mac.mac = None;
    assert_eq!(channel.decrypt_response(no_mac), Err(SessionError::MissingMac { actual: 0 }));

    let mut other_code = good.clone();
    other_code.code = ResponseCode::Success(CommandType::Echo);
    assert_eq!(channel.decrypt_response(other_code), Err(SessionError::MacMismatch));

    let mut longer = good.clone();
    longer.data.push(0x00);
    assert_eq!(channel.decrypt_response(longer), Err(SessionError::MacMismatch));

    let mut huge = good.clone();
    huge.data = vec![0; 0xffff - 8];
    assert_eq!(
        channel.decrypt_response(huge),
        Err(SessionError::MessageTooLong { actual: 0xffff - 8 })
    );

    let stale = sealed(&[0; 16], good.data.clone());
    assert_eq!(channel.decrypt_response(stale), Err(SessionError::MacMismatch));

    assert_eq!(channel.counter(), 1);
    assert_eq!(channel.state(), ChannelState::Established);
    assert_eq!(channel.decrypt_response(good).map(|r| r.data), Ok(vec![0x0a]));
    assert_eq!(channel.counter(), 2);
}

#[test]
fn an_authentic_envelope_without_valid_padding_is_refused() {
    let (mut channel, chaining) = established();
    let enc = key_of(&ENC_KEY, 0x04);
    let unpadded = cbc_encrypt_blocks(&enc, &icv(&enc, 1), &[0xff; 16]);
    let error = channel.decrypt_response(sealed(&chaining, unpadded)).unwrap_err();
    assert_eq!(error, SessionError::DecryptFailed);
    assert_eq!(error.kind(), SessionErrorKind::ProtocolError);
    let error = channel.decrypt_response(sealed(&chaining, vec![1, 2, 3])).unwrap_err();
    assert_eq!(error, SessionError::DecryptFailed);
    let error = channel.decrypt_response(sealed(&chaining, vec![])).unwrap_err();
    assert_eq!(error, SessionError::DecryptFailed);
    assert_eq!(channel.counter(), 1);
}

#[test]
fn an_authentic_envelope_around_a_malformed_response_is_refused() {
    let (mut channel, chaining) = established();
    let error = channel.decrypt_response(envelope_of(&chaining, 1, &[0x81])).unwrap_err();
    assert_eq!(error, SessionError::ResponseTooShort { actual: 1 });
    let error =
        channel.decrypt_response(envelope_of(&chaining, 1, &[0x81, 0x00, 0x02, 0x01])).unwrap_err();
    assert_eq!(error, SessionError::ResponseLengthMismatch { declared: 2, actual: 1 });
    assert_eq!(channel.counter(), 1);
}

#[test]
fn a_channel_that_is_not_established_carries_nothing() {
    let good = ResponseMessage::parse(vec![0x85, 0x00, 0x09, 0x09, 1, 2, 3, 4, 5, 6, 7, 8]).unwrap();
    let mut channel = awaiting();
    let command = CommandMessage::new(CommandType::Echo, vec![1]).unwrap();
    assert_eq!(channel.encrypt_command(command.clone()), Err(SessionError::SessionClosed));
    assert_eq!(channel.decrypt_response(good.clone()), Err(SessionError::SessionClosed));
    assert_eq!(channel.state(), ChannelState::AwaitingDeviceChallenge);
    let (mut channel, _) = established();
    channel.close();
    assert_eq!(channel.state(), ChannelState::Closed);
    assert_eq!(channel.counter(), 0);
    assert_eq!(channel.encrypt_command(command), Err(SessionError::SessionClosed));
    assert_eq!(channel.decrypt_response(good), Err(SessionError::SessionClosed));
}

#[test]
fn challenges_are_random() {
    let first = Challenge::random().unwrap();
    let second = Challenge::random().unwrap();
    let third = Challenge::random().unwrap();
    assert!(first != second || second != third);
}

#[test]
fn a_session_carries_a_limited_number_of_commands() {
    let (mut channel, chaining) = established();
    let enc = key_of(&ENC_KEY, 0x04);
    let rmac = key_of(&MAC_KEY, 0x07);
    let inner = [0x81, 0x00, 0x00];
    for counter in 1..yubihsm::MAX_COMMANDS_PER_SESSION {
        let data = cbc_encrypt(&enc, &icv(&enc, counter), &inner);
        let mac = tag8(&rmac, &mac_input(&chaining, 0x85, 9, &data));
        let envelope = ResponseMessage {
            code: ResponseCode::Success(CommandType::SessionMessage),
            session_id: Some(SessionId { value: 9 }),
            data,
            mac: Some(mac),
        };
        assert!(channel.decrypt_response(envelope).is_ok());
    }
    assert_eq!(channel.counter(), yubihsm::MAX_COMMANDS_PER_SESSION);
    let command = CommandMessage::new(CommandType::Echo, vec![1]).unwrap();
    assert_eq!(channel.encrypt_command(command), Err(SessionError::SessionLimitReached));
    let envelope = envelope_of(&chaining, yubihsm::MAX_COMMANDS_PER_SESSION, &inner);
    assert_eq!(channel.decrypt_response(envelope), Err(SessionError::SessionLimitReached));
    assert_eq!(channel.counter(), yubihsm::MAX_COMMANDS_PER_SESSION);
}
