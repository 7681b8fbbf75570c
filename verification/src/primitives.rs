//! The cryptographic primitives, taken from outside crates.
//!
//! Nothing in this file is verified. Each function makes one call into an
//! outside crate and states what that crate documents of it. Where the result
//! is the output of an algorithm, the contract gives it a name, an
//! uninterpreted function of the inputs, so that the verified code that builds
//! on it can say exactly which value it uses where.

use vstd::prelude::*;
use aes::cipher::block_padding::Iso7816;
use aes::cipher::generic_array::GenericArray;
use aes::cipher::{BlockDecryptMut, BlockEncrypt, BlockEncryptMut, KeyInit, KeyIvInit};
use aes::Aes128;
use cmac::{Cmac, Mac};
use rand_core::{OsRng, RngCore};
use sha2::Sha256;
use subtle::ConstantTimeEq;

verus! {

/// AES-128 applied to one block under `key`.
pub uninterp spec fn aes128_encrypt_block(key: Seq<u8>, block: Seq<u8>) -> Seq<u8>;

/// AES-128 in CBC mode under `key` and `iv`, applied to `message` after
/// ISO 7816-4 padding.
pub uninterp spec fn aes128_cbc_encrypt(key: Seq<u8>, iv: Seq<u8>, message: Seq<u8>) -> Seq<u8>;

/// The inverse of `aes128_cbc_encrypt`: the message that `ciphertext` holds,
/// or `None` where it is no whole number of blocks or does not end in a
/// valid padding.
pub uninterp spec fn aes128_cbc_decrypt(key: Seq<u8>, iv: Seq<u8>, ciphertext: Seq<u8>) -> Option<
    Seq<u8>,
>;

/// The CMAC of `message` under `key`, with AES-128 as the block cipher.
pub uninterp spec fn cmac_aes128(key: Seq<u8>, message: Seq<u8>) -> Seq<u8>;

/// The first 32 bytes of PBKDF2 with HMAC-SHA-256 for `password`, `salt` and
/// `rounds`.
pub uninterp spec fn pbkdf2_hmac_sha256(password: Seq<u8>, salt: Seq<u8>, rounds: u32) -> Seq<u8>;

/// `aes::Aes128::encrypt_block`: encrypts a single block. The result is the
/// block cipher's output for this key and block.
#[verifier::external_body]
pub(crate) fn encrypt_block(key: &[u8; 16], block: &[u8; 16]) -> (out: [u8; 16])
    ensures
        out@ == aes128_encrypt_block(key@, block@),
{
    let mut out = GenericArray::from(*block);
    Aes128::new(key.into()).encrypt_block(&mut out);
    out.into()
}

/// `encrypt_padded_vec_mut` of `cbc::Encryptor<Aes128>` with `Iso7816`
/// padding. The padding always adds at least one byte, so the ciphertext is
/// the next whole number of blocks strictly above the message's length; and
/// the matching decryption gives the message back.
#[verifier::external_body]
pub(crate) fn cbc_encrypt(key: &[u8; 16], iv: &[u8; 16], message: &[u8]) -> (ciphertext: Vec<u8>)
    requires
        message@.len() + 16 <= usize::MAX,
    ensures
        ciphertext@ == aes128_cbc_encrypt(key@, iv@, message@),
        ciphertext@.len() == 16 * (message@.len() / 16 + 1),
        aes128_cbc_decrypt(key@, iv@, ciphertext@) == Some(message@),
{
    cbc::Encryptor::<Aes128>::new(key.into(), iv.into()).encrypt_padded_vec_mut::<Iso7816>(message)
}

/// `decrypt_padded_vec_mut` of `cbc::Decryptor<Aes128>` with `Iso7816`
/// padding. It fails where the ciphertext is no whole number of blocks or
/// the last block does not end in a valid padding.
#[verifier::external_body]
pub(crate) fn cbc_decrypt(key: &[u8; 16], iv: &[u8; 16], ciphertext: &[u8]) -> (message: Option<
    Vec<u8>,
>)
    ensures
        match message {
            Some(m) => aes128_cbc_decrypt(key@, iv@, ciphertext@) == Some(m@),
            None => aes128_cbc_decrypt(key@, iv@, ciphertext@) is None,
        },
{
    let cipher = cbc::Decryptor::<Aes128>::new(key.into(), iv.into());
    match cipher.decrypt_padded_vec_mut::<Iso7816>(ciphertext) {
        Ok(m) => Some(m),
        Err(_) => None,
    }
}

/// `cmac::Cmac<Aes128>`, fed the whole message at once. The tag is as long as
/// a block of the cipher.
#[verifier::external_body]
pub(crate) fn cmac(key: &[u8; 16], message: &[u8]) -> (tag: [u8; 16])
    ensures
        tag@ == cmac_aes128(key@, message@),
{
    let mut mac = <Cmac<Aes128> as Mac>::new(key.into());
    mac.update(message);
    mac.finalize().into_bytes().into()
}

/// `pbkdf2::pbkdf2_hmac_array` with SHA-256, for 32 bytes of output.
#[verifier::external_body]
pub(crate) fn pbkdf2(password: &[u8], salt: &[u8], rounds: u32) -> (key: [u8; 32])
    ensures
        key@ == pbkdf2_hmac_sha256(password@, salt@, rounds),
{
    pbkdf2::pbkdf2_hmac_array::<Sha256, 32>(password, salt, rounds)
}

/// `subtle::ConstantTimeEq::ct_eq` on byte slices: true exactly where both
/// hold the same bytes. The time it takes depends on the lengths alone.
#[verifier::external_body]
pub(crate) fn ct_eq(a: &[u8], b: &[u8]) -> (equal: bool)
    ensures
        equal == (a@ == b@),
{
    a.ct_eq(b).into()
}

/// `rand_core::OsRng::try_fill_bytes`: bytes from the system's random source,
/// or `None` where the source fails. Nothing is known of the bytes.
#[verifier::external_body]
pub(crate) fn random_bytes<const N: usize>() -> (bytes: Option<[u8; N]>) {
    let mut bytes = [0u8; N];
    match OsRng.try_fill_bytes(&mut bytes) {
        Ok(()) => Some(bytes),
        Err(_) => None,
    }
}

/// `uuid::Builder::from_random_bytes`: the supplied bytes with the version
/// set to 4 and the variant to RFC 4122, all other bits unchanged.
#[verifier::external_body]
pub(crate) fn uuid_v4(random: [u8; 16]) -> (bytes: [u8; 16])
    ensures
        bytes@ == random@.update(6, (random[6] & 0x0f) | 0x40).update(
            8,
            (random[8] & 0x3f) | 0x80,
        ),
{
    uuid::Builder::from_random_bytes(random).into_uuid().into_bytes()
}

} // verus!
