//! The long-term keys that host and device share before any session exists.

use vstd::prelude::*;
use crate::bytes::array16;
use crate::error::SessionError;
use crate::primitives::{pbkdf2, pbkdf2_hmac_sha256};
use crate::KEY_SIZE;

verus! {

/// The pair of static keys. They authenticate the handshake and seed the
/// session keys; no message is ever encrypted or authenticated under them.
#[derive(Clone, Copy, Debug, PartialEq, Eq)]
pub struct StaticKeys {
    /// Static encryption key.
    pub enc_key: [u8; 16],
    /// Static authentication key.
    pub mac_key: [u8; 16],
}

/// The static keys that a password stands for: the first and the second half
/// of 32 bytes derived from it.
pub open spec fn keys_of_password(password: Seq<u8>, salt: Seq<u8>, rounds: u32) -> (
    Seq<u8>,
    Seq<u8>,
) {
    let derived = pbkdf2_hmac_sha256(password, salt, rounds);
    (derived.subrange(0, 16), derived.subrange(16, 32))
}

impl StaticKeys {
    /// Takes two raw keys. Both must be `KEY_SIZE` bytes long; otherwise the length of
    /// the first one that is not is reported.
    pub fn new(enc_key: &[u8], mac_key: &[u8]) -> (result: Result<StaticKeys, SessionError>)
        ensures
            enc_key@.len() == KEY_SIZE && mac_key@.len() == KEY_SIZE ==> (result matches Ok(keys)
                && keys.enc_key@ == enc_key@ && keys.mac_key@ == mac_key@),
            enc_key@.len() != KEY_SIZE ==> result == Err::<StaticKeys, SessionError>(
                SessionError::InvalidKeyLength { actual: enc_key@.len() as usize },
            ),
            enc_key@.len() == KEY_SIZE && mac_key@.len() != KEY_SIZE ==> result == Err::<
                StaticKeys,
                SessionError,
            >(SessionError::InvalidKeyLength { actual: mac_key@.len() as usize }),
    {
        if enc_key.len() != KEY_SIZE {
            return Err(SessionError::InvalidKeyLength { actual: enc_key.len() });
        }
        if mac_key.len() != KEY_SIZE {
            return Err(SessionError::InvalidKeyLength { actual: mac_key.len() });
        }
        let keys = StaticKeys { enc_key: array16(enc_key, 0), mac_key: array16(mac_key, 0) };
        Ok(keys)
    }

    /// Derives the two keys from a password, with the salt and the number of
    /// rounds that the caller names.
    pub fn derive_from_password(password: &[u8], salt: &[u8], iterations: u32) -> (keys: StaticKeys)
        ensures
            (keys.enc_key@, keys.mac_key@) == keys_of_password(password@, salt@, iterations),
    {
        let derived = pbkdf2(password, salt, iterations);
        StaticKeys {
            enc_key: array16(derived.as_slice(), 0),
            mac_key: array16(derived.as_slice(), 16),
        }
    }
}

} // verus!
