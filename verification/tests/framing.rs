//! Codes, message framing, key material and error texts.

use yubihsm::audit::{
    find_audit_option, parse_command_audit_options, parse_force_audit_option, AuditCommand,
    AuditOption, AuditTag,
};
use yubihsm::bytes::{append, append_be16, array16, array8, copy_range};
use yubihsm::command_type::CommandType;
use yubihsm::connector::{ConnectorError, ConnectorStatus, CorrelationToken};
use yubihsm::error::{append_decimal, SessionError, SessionErrorKind};
use yubihsm::message::{CommandMessage, ResponseMessage, SessionId};
use yubihsm::response_code::ResponseCode;
use yubihsm::session::{
    check_decrypted_response, check_response, check_status, parse_create_session_response,
};
use yubihsm::static_keys::StaticKeys;

fn error_of<T>(result: Result<T, SessionError>) -> SessionError {
    match result {
        Ok(_) => panic!("the call succeeded"),
        Err(e) => e,
    }
}

#[test]
fn command_types_have_their_codes() {
    assert_eq!(CommandType::Echo.to_u8(), 0x01);
    assert_eq!(CommandType::CreateSession.to_u8(), 0x03);
    assert_eq!(CommandType::AuthSession.to_u8(), 0x04);
    assert_eq!(CommandType::SessionMessage.to_u8(), 0x05);
    assert_eq!(CommandType::CloseSession.to_u8(), 0x40);
    assert_eq!(CommandType::GetOption.to_u8(), 0x50);
    assert_eq!(CommandType::Blink.to_u8(), 0x6b);
    assert_eq!(CommandType::Error.to_u8(), 0x7f);
    assert_eq!(CommandType::from_u8(0x50), Ok(CommandType::GetOption));
    assert_eq!(CommandType::from_u8(0x02), Err(SessionError::InvalidCommandType { byte: 0x02 }));
    assert_eq!(CommandType::from_u8(0x80), Err(SessionError::InvalidCommandType { byte: 0x80 }));
}

#[test]
fn command_type_codes_decode_to_themselves() {
    let mut known = 0;
    for byte in 0..=255u8 {
        match CommandType::from_u8(byte) {
            Ok(command_type) => {
                assert_eq!(command_type.to_u8(), byte);
                assert!(byte < 0x80);
                known += 1;
            },
            Err(e) => {
                assert_eq!(e, SessionError::InvalidCommandType { byte });
                assert_eq!(e.kind(), SessionErrorKind::ProtocolError);
            },
        }
    }
    assert_eq!(known, 53);
}

#[test]
fn response_codes_have_their_codes() {
    assert_eq!(ResponseCode::Success(CommandType::Echo).to_u8(), 0x81);
    assert_eq!(ResponseCode::Success(CommandType::SessionMessage).to_u8(), 0x85);
    assert_eq!(ResponseCode::MemoryError.to_u8(), 0x7f);
    assert_eq!(ResponseCode::DeviceOk.to_u8(), 0x75);
    assert_eq!(ResponseCode::ConnectorError.to_u8(), 0x63);
    assert_eq!(ResponseCode::from_u8(0xd0), Ok(ResponseCode::Success(CommandType::GetOption)));
    assert_eq!(ResponseCode::from_u8(0x7f), Ok(ResponseCode::MemoryError));
    assert_eq!(ResponseCode::from_u8(0x71), Ok(ResponseCode::DeviceAuthFail));
    assert_eq!(ResponseCode::from_u8(0x62), Err(SessionError::InvalidResponseCode { byte: 0x62 }));
    assert_eq!(ResponseCode::from_u8(0x00), Err(SessionError::InvalidResponseCode { byte: 0x00 }));
    assert_eq!(ResponseCode::from_u8(0x82), Err(SessionError::InvalidCommandType { byte: 0x02 }));
    assert!(ResponseCode::Success(CommandType::Echo).is_success());
    assert!(!ResponseCode::GenericError.is_success());
}

#[test]
fn response_code_bytes_decode_to_themselves() {
    let mut known = 0;
    for byte in 0..=255u8 {
        if let Ok(code) = ResponseCode::from_u8(byte) {
            assert_eq!(code.to_u8(), byte);
            assert_eq!(code.is_success(), byte >= 0x80);
            known += 1;
        }
    }
    assert_eq!(known, 53 + 29);
}

#[test]
fn session_identifiers_up_to_fifteen_are_accepted() {
    assert_eq!(SessionId::new(0), Ok(SessionId { value: 0 }));
    assert_eq!(SessionId::new(15).unwrap().to_u8(), 15);
    let error = error_of(SessionId::new(16));
    assert_eq!(error, SessionError::InvalidSessionId { id: 16 });
    assert_eq!(error.description(), "session ID exceeds the maximum allowed: 16 (max 15)");
}

#[test]
fn a_plain_command_is_framed_by_type_and_length() {
    let command = CommandMessage::new(CommandType::Echo, vec![0xaa, 0xbb, 0xcc]).unwrap();
    assert_eq!(command.len(), 3);
    assert_eq!(command.serialize(), vec![0x01, 0x00, 0x03, 0xaa, 0xbb, 0xcc]);
    let empty = CommandMessage::new(CommandType::CloseSession, vec![]).unwrap();
    assert_eq!(empty.serialize(), vec![0x40, 0x00, 0x00]);
}

#[test]
fn a_session_command_is_framed_with_session_and_tag() {
    let command = CommandMessage::new_with_mac(
        CommandType::SessionMessage,
        SessionId { value: 3 },
        vec![0x10, 0x20],
        [1, 2, 3, 4, 5, 6, 7, 8],
    )
    .unwrap();
    assert_eq!(command.len(), 11);
    assert_eq!(
        command.serialize(),
        vec![0x05, 0x00, 0x0b, 0x03, 0x10, 0x20, 1, 2, 3, 4, 5, 6, 7, 8]
    );
}

#[test]
fn a_command_holds_at_most_2048_bytes() {
    let command = CommandMessage::new(CommandType::Echo, vec![0; 2048]).unwrap();
    let bytes = command.serialize();
    assert_eq!(bytes.len(), 2051);
    assert_eq!(bytes[..3], [0x01, 0x08, 0x00]);
    let error = error_of(CommandMessage::new(CommandType::Echo, vec![0; 2049]));
    assert_eq!(error, SessionError::MessageTooLong { actual: 2049 });
    assert_eq!(error.kind(), SessionErrorKind::ProtocolError);
    assert_eq!(error.description(), "message too long: 2049 bytes (max 2048)");
    let error = error_of(CommandMessage::new_with_mac(
        CommandType::SessionMessage,
        SessionId { value: 0 },
        vec![0; 3000],
        [0; 8],
    ));
    assert_eq!(error, SessionError::MessageTooLong { actual: 3000 });
}

#[test]
fn a_plain_response_is_parsed() {
    let response = ResponseMessage::parse(vec![0x81, 0x00, 0x02, 0xaa, 0xbb]).unwrap();
    assert_eq!(response.code, ResponseCode::Success(CommandType::Echo));
    assert_eq!(response.session_id, None);
    assert_eq!(response.data, vec![0xaa, 0xbb]);
    assert_eq!(response.mac, None);
    assert!(response.is_ok());
    assert!(!response.is_err());
    assert_eq!(response.command(), Some(CommandType::Echo));
}

#[test]
fn an_error_response_is_parsed() {
    let response = ResponseMessage::parse(vec![0x7f, 0x00, 0x01, 0x09]).unwrap();
    assert_eq!(response.code, ResponseCode::MemoryError);
    assert_eq!(response.data, vec![0x09]);
    assert!(response.is_err());
    assert_eq!(response.command(), None);
}

#[test]
fn the_reply_to_an_open_request_names_its_session() {
    let mut bytes = vec![0x83, 0x00, 0x11, 0x07];
    bytes.extend_from_slice(&[0x11; 8]);
    bytes.extend_from_slice(&[0x22; 8]);
    let response = ResponseMessage::parse(bytes).unwrap();
    assert_eq!(response.session_id, Some(SessionId { value: 7 }));
    assert_eq!(response.data.len(), 16);
    assert_eq!(response.mac, None);
    let (id, challenge, cryptogram) = parse_create_session_response(&response).unwrap();
    assert_eq!(id, SessionId { value: 7 });
    assert_eq!(challenge.bytes, [0x11; 8]);
    assert_eq!(cryptogram, [0x22; 8]);
}

#[test]
fn the_reply_to_an_open_request_must_hold_challenge_and_cryptogram() {
    let response = ResponseMessage::parse(vec![0x83, 0x00, 0x03, 0x07, 0x01, 0x02]).unwrap();
    let error = error_of(parse_create_session_response(&response));
    assert_eq!(error, SessionError::BadCreateSessionResponse { actual: 2 });
    assert_eq!(error.kind(), SessionErrorKind::ProtocolError);
    assert_eq!(error.description(), "expected 16-byte response to session creation, got 2");
    let response = ResponseMessage {
        code: ResponseCode::Success(CommandType::CreateSession),
        session_id: None,
        data: vec![0; 16],
        mac: None,
    };
    let error = error_of(parse_create_session_response(&response));
    assert_eq!(error, SessionError::NoSessionId);
    assert_eq!(error.kind(), SessionErrorKind::CreateFailed);
    assert_eq!(error.description(), "no session ID in response");
}

#[test]
fn a_session_response_ends_in_its_tag() {
    let bytes = vec![0x85, 0x00, 0x0b, 0x02, 0xde, 0xad, 1, 2, 3, 4, 5, 6, 7, 8];
    let response = ResponseMessage::parse(bytes).unwrap();
    assert_eq!(response.code, ResponseCode::Success(CommandType::SessionMessage));
    assert_eq!(response.session_id, Some(SessionId { value: 2 }));
    assert_eq!(response.data, vec![0xde, 0xad]);
    assert_eq!(response.mac, Some([1, 2, 3, 4, 5, 6, 7, 8]));
}

#[test]
fn a_response_shorter_than_its_header_is_refused() {
    for bytes in [vec![], vec![0x81], vec![0x81, 0x00]] {
        let len = bytes.len();
        let error = error_of(ResponseMessage::parse(bytes));
        assert_eq!(error, SessionError::ResponseTooShort { actual: len });
        assert_eq!(error.kind(), SessionErrorKind::ProtocolError);
    }
    assert_eq!(
        SessionError::ResponseTooShort { actual: 2 }.description(),
        "response too short: 2 (expected at least 3-bytes)"
    );
}

#[test]
fn a_response_with_a_wrong_length_is_refused() {
    let error = error_of(ResponseMessage::parse(vec![0x81, 0x00, 0x05, 0xaa]));
    assert_eq!(error, SessionError::ResponseLengthMismatch { declared: 5, actual: 1 });
    assert_eq!(error.kind(), SessionErrorKind::ProtocolError);
    assert_eq!(error.description(), "unexpected response length 1 (expecting 5)");
    let error = error_of(ResponseMessage::parse(vec![0x81, 0x01, 0x00, 0xaa, 0xbb]));
    assert_eq!(error, SessionError::ResponseLengthMismatch { declared: 256, actual: 2 });
    let error = error_of(ResponseMessage::parse(vec![0x81, 0x00, 0x00, 0xaa]));
    assert_eq!(error, SessionError::ResponseLengthMismatch { declared: 0, actual: 1 });
}

#[test]
fn a_response_with_an_unknown_code_is_refused() {
    let error = error_of(ResponseMessage::parse(vec![0x10, 0x00, 0x00]));
    assert_eq!(error, SessionError::InvalidResponseCode { byte: 0x10 });
    assert_eq!(error.description(), "invalid response code: 16");
    let error = error_of(ResponseMessage::parse(vec![0x82, 0x00, 0x00]));
    assert_eq!(error, SessionError::InvalidCommandType { byte: 0x02 });
    assert_eq!(error.description(), "invalid command type: 2");
}

#[test]
fn a_session_response_without_session_or_tag_is_refused() {
    let error = error_of(ResponseMessage::parse(vec![0x85, 0x00, 0x00]));
    assert_eq!(error, SessionError::MissingSessionId);
    assert_eq!(error.description(), "session ID missing");
    let error = error_of(ResponseMessage::parse(vec![0x85, 0x00, 0x01, 0x10]));
    assert_eq!(error, SessionError::InvalidSessionId { id: 0x10 });
    let error = error_of(ResponseMessage::parse(vec![0x85, 0x00, 0x04, 0x01, 1, 2, 3]));
    assert_eq!(error, SessionError::MissingMac { actual: 3 });
    assert_eq!(error.description(), "missing R-MAC: 3 bytes where 8 are expected");
    let response =
        ResponseMessage::parse(vec![0x85, 0x00, 0x09, 0x01, 1, 2, 3, 4, 5, 6, 7, 8]).unwrap();
    assert_eq!(response.data, Vec::<u8>::new());
}

#[test]
fn a_reply_is_checked_against_the_command_that_was_sent() {
    let response = check_response(CommandType::Echo, vec![0x81, 0x00, 0x01, 0x07]).unwrap();
    assert_eq!(response.data, vec![0x07]);
    let error = error_of(check_response(CommandType::Blink, vec![0x81, 0x00, 0x01, 0x07]));
    assert_eq!(
        error,
        SessionError::CommandTypeMismatch { sent: CommandType::Blink, echoed: CommandType::Echo }
    );
    assert_eq!(error.kind(), SessionErrorKind::ProtocolError);
    assert_eq!(error.description(), "command type mismatch: expected Blink, got Echo");
    let error = error_of(check_response(CommandType::Echo, vec![0x72, 0x00, 0x00]));
    assert_eq!(error, SessionError::DeviceError { code: ResponseCode::DeviceInvalidSession });
    assert_eq!(error.kind(), SessionErrorKind::ResponseError);
    assert_eq!(error.description(), "HSM error: DeviceInvalidSession");
    let error = error_of(check_response(CommandType::Echo, vec![0x7f, 0x00, 0x01, 0x02]));
    assert_eq!(error, SessionError::DeviceError { code: ResponseCode::MemoryError });
    assert_eq!(error.description(), "HSM error: MemoryError");
    let error = error_of(check_response(CommandType::Echo, vec![0x81]));
    assert_eq!(error, SessionError::ResponseTooShort { actual: 1 });
}

#[test]
fn a_decrypted_response_is_checked_against_the_command_that_was_sent() {
    let response = ResponseMessage::parse(vec![0xd0, 0x00, 0x01, 0x01]).unwrap();
    assert_eq!(check_decrypted_response(CommandType::GetOption, response.clone()), Ok(vec![0x01]));
    assert_eq!(
        check_decrypted_response(CommandType::Echo, response),
        Err(SessionError::ResponseTypeMismatch {
            sent: CommandType::Echo,
            echoed: CommandType::GetOption
        })
    );
    let failed = ResponseMessage::parse(vec![0x7f, 0x00, 0x00]).unwrap();
    assert_eq!(
        check_decrypted_response(CommandType::Echo, failed),
        Err(SessionError::DeviceCommandError { code: ResponseCode::MemoryError })
    );
    assert_eq!(
        SessionError::DeviceCommandError { code: ResponseCode::MemoryError }.description(),
        "general HSM error (e.g. bad command params, missing object)"
    );
    assert_eq!(
        SessionError::DeviceCommandError { code: ResponseCode::DeviceLogFull }.description(),
        "DeviceLogFull"
    );
    assert_eq!(
        SessionError::DeviceCommandError { code: ResponseCode::Success(CommandType::Echo) }
            .description(),
        "Success(Echo)"
    );
    let mismatch = SessionError::ResponseTypeMismatch {
        sent: CommandType::GetOption,
        echoed: CommandType::SignDataEcdsa,
    };
    assert_eq!(mismatch.description(), "command type mismatch: expected GetOption, got SignDataEcdsa");
}

#[test]
fn only_the_status_ok_is_healthy() {
    assert_eq!(check_status(&ConnectorStatus { message: "OK".to_string() }), Ok(()));
    for message in ["ERROR", "", "ok", "OK ", "O"] {
        let error = error_of(check_status(&ConnectorStatus { message: message.to_string() }));
        assert_eq!(error, SessionError::BadConnectorStatus { message: message.to_string() });
        assert_eq!(error.kind(), SessionErrorKind::CreateFailed);
    }
}

#[test]
fn raw_static_keys_must_have_sixteen_bytes() {
    let keys = StaticKeys::new(&[1; 16], &[2; 16]).unwrap();
    assert_eq!(keys.enc_key, [1; 16]);
    assert_eq!(keys.mac_key, [2; 16]);
    let error = error_of(StaticKeys::new(&[1; 15], &[2; 16]));
    assert_eq!(error, SessionError::InvalidKeyLength { actual: 15 });
    assert_eq!(error.kind(), SessionErrorKind::InvalidKeyLength);
    assert_eq!(error.description(), "invalid key length: 15 bytes (expected 16)");
    assert_eq!(
        error_of(StaticKeys::new(&[1; 16], &[2; 32])),
        SessionError::InvalidKeyLength { actual: 32 }
    );
    assert_eq!(
        error_of(StaticKeys::new(&[], &[2; 3])),
        SessionError::InvalidKeyLength { actual: 0 }
    );
}

#[test]
fn keys_of_a_password_are_the_halves_of_the_derived_bytes() {
    let keys = StaticKeys::derive_from_password(b"password", b"salt", 1);
    assert_eq!(
        keys.enc_key,
        [
            0x12, 0x0f, 0xb6, 0xcf, 0xfc, 0xf8, 0xb3, 0x2c, 0x43, 0xe7, 0x22, 0x52, 0x56, 0xc4,
            0xf8, 0x37
        ]
    );
    assert_eq!(
        keys.mac_key,
        [
            0xa8, 0x65, 0x48, 0xc9, 0x2c, 0xcc, 0x35, 0x48, 0x08, 0x05, 0x98, 0x7c, 0xb7, 0x0b,
            0xe1, 0x7b
        ]
    );
}

#[test]
fn the_default_password_gives_the_default_keys() {
    let keys = StaticKeys::derive_from_password(b"password", b"Yubico", 10_000);
    assert_eq!(
        keys.enc_key,
        [
            0x09, 0x0b, 0x47, 0xdb, 0xed, 0x59, 0x56, 0x54, 0x90, 0x1d, 0xee, 0x1c, 0xc6, 0x55,
            0xe4, 0x20
        ]
    );
    assert_eq!(
        keys.mac_key,
        [
            0x59, 0x2f, 0xd4, 0x83, 0xf7, 0x59, 0xe2, 0x99, 0x09, 0xa0, 0x4c, 0x45, 0x05, 0xd2,
            0xce, 0x0a
        ]
    );
    assert_eq!(yubihsm::PBKDF2_ITERATIONS, 10_000);
}

#[test]
fn correlation_tokens_are_random_uuids() {
    let mut seen: Vec<[u8; 16]> = Vec::new();
    for _ in 0..64 {
        let token = CorrelationToken::generate().unwrap();
        assert_eq!(token.bytes[6] >> 4, 4);
        assert_eq!(token.bytes[8] >> 6, 2);
        assert!(!seen.contains(&token.bytes));
        seen.push(token.bytes);
    }
}

#[test]
fn audit_options_have_their_codes() {
    assert_eq!(AuditOption::from_u8(0), Ok(AuditOption::Off));
    assert_eq!(AuditOption::from_u8(1), Ok(AuditOption::On));
    assert_eq!(AuditOption::from_u8(2), Ok(AuditOption::Fix));
    let error = error_of(AuditOption::from_u8(3));
    assert_eq!(error, SessionError::InvalidAuditOption { byte: 3 });
    assert_eq!(error.description(), "invalid audit option: 3");
    assert_eq!(AuditOption::Fix.to_u8(), 2);
    assert_eq!(AuditTag::Force.to_u8(), 0x01);
    assert_eq!(AuditTag::Command.to_u8(), 0x03);
}

#[test]
fn the_force_option_is_one_byte() {
    assert_eq!(parse_force_audit_option(&[0x01]), Ok(AuditOption::On));
    assert_eq!(parse_force_audit_option(&[0x00]), Ok(AuditOption::Off));
    let error = error_of(parse_force_audit_option(&[0x01, 0x02]));
    assert_eq!(error, SessionError::UnexpectedResponseLength { expected: 1, actual: 2 });
    assert_eq!(error.kind(), SessionErrorKind::ProtocolError);
    assert_eq!(error.description(), "expected 1-byte response, got 2");
    assert_eq!(
        error_of(parse_force_audit_option(&[])),
        SessionError::UnexpectedResponseLength { expected: 1, actual: 0 }
    );
    assert_eq!(
        error_of(parse_force_audit_option(&[0x09])),
        SessionError::InvalidAuditOption { byte: 9 }
    );
}

#[test]
fn command_options_are_pairs_of_command_and_option() {
    assert_eq!(parse_command_audit_options(&[]), Ok(vec![]));
    assert_eq!(
        parse_command_audit_options(&[0x01, 0x00, 0x50, 0x02]),
        Ok(vec![
            AuditCommand { command: CommandType::Echo, audit: AuditOption::Off },
            AuditCommand { command: CommandType::GetOption, audit: AuditOption::Fix },
        ])
    );
    let error = error_of(parse_command_audit_options(&[0x01, 0x00, 0x50]));
    assert_eq!(error, SessionError::TruncatedAuditList);
    assert_eq!(error.description(), "audit option list ends within an entry");
    assert_eq!(
        error_of(parse_command_audit_options(&[0x01, 0x05, 0x02, 0x00])),
        SessionError::InvalidAuditOption { byte: 5 }
    );
    assert_eq!(
        error_of(parse_command_audit_options(&[0x02, 0x05, 0x50])),
        SessionError::InvalidCommandType { byte: 2 }
    );
}

#[test]
fn the_first_entry_for_a_command_decides() {
    let list = vec![
        AuditCommand { command: CommandType::Echo, audit: AuditOption::Off },
        AuditCommand { command: CommandType::Blink, audit: AuditOption::On },
        AuditCommand { command: CommandType::Echo, audit: AuditOption::Fix },
    ];
    assert_eq!(find_audit_option(&list, CommandType::Echo), Some(AuditOption::Off));
    assert_eq!(find_audit_option(&list, CommandType::Blink), Some(AuditOption::On));
    assert_eq!(find_audit_option(&list, CommandType::Reset), None);
    assert_eq!(find_audit_option(&vec![], CommandType::Echo), None);
}

#[test]
fn numbers_are_written_in_decimal() {
    for (n, expected) in
        [(0usize, "0"), (7, "7"), (9, "9"), (10, "10"), (99, "99"), (100, "100"), (2048, "2048"), (1048576, "1048576")]
    {
        let mut text = String::from("n=");
        append_decimal(&mut text, n);
        assert_eq!(text, format!("n={}", expected));
    }
    let mut text = String::new();
    append_decimal(&mut text, usize::MAX);
    assert_eq!(text, format!("{}", usize::MAX));
}

#[test]
fn every_error_has_its_kind_and_text() {
    let cases = vec![
        (
            SessionError::BadConnectorStatus { message: "BUSY".to_string() },
            SessionErrorKind::CreateFailed,
            "bad status response from connector: BUSY",
        ),
        (SessionError::NoHostChallenge, SessionErrorKind::CreateFailed, "no random host challenge available"),
        (SessionError::CryptogramMismatch, SessionErrorKind::AuthFailed, "card cryptogram mismatch!"),
        (
            SessionError::SessionIdMismatch { expected_id: 5, actual_id: 12 },
            SessionErrorKind::ProtocolError,
            "message has session ID 12 (expected 5)",
        ),
        (SessionError::MacMismatch, SessionErrorKind::ProtocolError, "R-MAC mismatch!"),
        (SessionError::DecryptFailed, SessionErrorKind::ProtocolError, "error decrypting response"),
        (
            SessionError::UnexpectedPayload { actual: 4 },
            SessionErrorKind::ProtocolError,
            "expected empty response data (got 4-bytes)",
        ),
        (
            SessionError::SessionLimitReached,
            SessionErrorKind::ProtocolError,
            "max of 1048576 commands per session exceeded",
        ),
        (SessionError::SessionClosed, SessionErrorKind::ProtocolError, "session is closed"),
        (
            SessionError::NoCorrelationToken,
            SessionErrorKind::ConnectionError,
            "no random correlation token available",
        ),
        (
            SessionError::Connection { error: ConnectorError { description: "timeout".to_string() } },
            SessionErrorKind::ConnectionError,
            "connection error: timeout",
        ),
    ];
    for (error, kind, text) in cases {
        assert_eq!(error.kind(), kind);
        assert_eq!(error.description(), text);
    }
    assert_eq!(yubihsm::MAX_COMMANDS_PER_SESSION, 1048576);
    assert_eq!(yubihsm::MAX_MSG_SIZE, 2048);
    assert_eq!(yubihsm::MAX_SESSION_ID, 15);
}

#[test]
fn bytes_are_appended_and_copied() {
    let mut bytes = vec![1u8];
    append(&mut bytes, &[2, 3]);
    append_be16(&mut bytes, 0x1234);
    append_be16(&mut bytes, 0x00ff);
    assert_eq!(bytes, vec![1, 2, 3, 0x12, 0x34, 0x00, 0xff]);
    assert_eq!(copy_range(&bytes, 1, 4), vec![2, 3, 0x12]);
    assert_eq!(copy_range(&bytes, 7, 7), Vec::<u8>::new());
    let long: Vec<u8> = (0..20).collect();
    assert_eq!(array8(&long, 2), [2, 3, 4, 5, 6, 7, 8, 9]);
    assert_eq!(array16(&long, 4), [4, 5, 6, 7, 8, 9, 10, 11, 12, 13, 14, 15, 16, 17, 18, 19]);
}

#[test]
fn the_default_salt_is_the_vendor_name() {
    assert_eq!(yubihsm::default_salt(), *b"Yubico");
    let keys = StaticKeys::derive_from_password(
        b"password",
        &yubihsm::default_salt(),
        yubihsm::PBKDF2_ITERATIONS,
    );
    assert_eq!(keys.enc_key[..4], [0x09, 0x0b, 0x47, 0xdb]);
}

#[test]
fn drawn_bytes_become_a_random_uuid() {
    assert_eq!(
        CorrelationToken::from_random_bytes([0xff; 16]).bytes,
        [0xff, 0xff, 0xff, 0xff, 0xff, 0xff, 0x4f, 0xff, 0xbf, 0xff, 0xff, 0xff, 0xff, 0xff, 0xff, 0xff]
    );
    assert_eq!(
        CorrelationToken::from_random_bytes([0x00; 16]).bytes,
        [0, 0, 0, 0, 0, 0, 0x40, 0, 0x80, 0, 0, 0, 0, 0, 0, 0]
    );
    let drawn = [70, 235, 208, 238, 14, 109, 0x13, 201, 0x39, 13, 204, 195, 90, 145, 63, 62];
    assert_eq!(
        CorrelationToken::from_random_bytes(drawn).bytes,
        [70, 235, 208, 238, 14, 109, 0x43, 201, 0xb9, 13, 204, 195, 90, 145, 63, 62]
    );
}

#[test]
fn every_code_has_the_name_that_debug_prints() {
    for byte in 0..=255u8 {
        if let Ok(command_type) = CommandType::from_u8(byte) {
            assert_eq!(command_type.name(), format!("{:?}", command_type));
        }
        if let Ok(code) = ResponseCode::from_u8(byte) {
            assert_eq!(code.name(), format!("{:?}", code));
        }
    }
    assert_eq!(CommandType::GetOption.name(), "GetOption");
    assert_eq!(ResponseCode::MemoryError.name(), "MemoryError");
    assert_eq!(ResponseCode::Success(CommandType::SessionMessage).name(), "Success(SessionMessage)");
}
