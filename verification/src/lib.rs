//! Client side of the secure channel to a hardware security module.
//!
//! A session authenticates host and device to each other by a
//! challenge/response handshake over long-term static keys, derives session
//! keys from both challenges, and from then on carries every command inside
//! an encrypted envelope whose authentication tag is chained to the tag of
//! the command before it.
//!
//! The transport is a capability that callers supply (`connector::Connector`).
//! Block cipher, message authentication code, password-based key derivation,
//! constant-time comparison and randomness are taken from outside crates
//! through the trusted declarations of `primitives`; everything else is
//! verified against the contracts stated on each function.

pub mod audit;
pub mod bytes;
pub mod channel;
pub mod command_type;
pub mod connector;
pub mod error;
pub mod get_option;
pub mod laws;
pub mod message;
pub mod primitives;
pub mod response_code;
pub mod session;
pub mod static_keys;

use vstd::prelude::*;

verus! {

/// Size of every symmetric key of the protocol, in bytes.
pub const KEY_SIZE: usize = 16;

/// Size of the block of the cipher, in bytes.
pub const BLOCK_SIZE: usize = 16;

/// Size of the authentication tag carried by a message, in bytes.
pub const MAC_SIZE: usize = 8;

/// Size of a challenge, in bytes.
pub const CHALLENGE_SIZE: usize = 8;

/// Size of a cryptogram, in bytes.
pub const CRYPTOGRAM_SIZE: usize = 8;

/// Largest payload a message may carry, in bytes.
pub const MAX_MSG_SIZE: usize = 2048;

/// Largest session identifier a device hands out.
pub const MAX_SESSION_ID: u8 = 15;

/// Number of commands after which a session has to be replaced.
pub const MAX_COMMANDS_PER_SESSION: u32 = 0x10_0000;

/// Number of key-derivation rounds applied to a password.
pub const PBKDF2_ITERATIONS: u32 = 10_000;

/// Identifier of an object stored on the device, such as an authentication key.
pub type ObjectId = u16;

/// Salt mixed into a password before key derivation: the ASCII bytes of "Yubico".
pub open spec fn pbkdf2_salt() -> Seq<u8> {
    seq![0x59u8, 0x75u8, 0x62u8, 0x69u8, 0x63u8, 0x6fu8]
}

/// The salt that `Session::create_from_password` mixes into a password.
pub fn default_salt() -> (salt: [u8; 6])
    ensures
        salt@ == pbkdf2_salt(),
{
    let salt: [u8; 6] = [0x59, 0x75, 0x62, 0x69, 0x63, 0x6f];
    salt
}

} // verus!
