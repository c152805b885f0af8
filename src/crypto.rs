//! The authenticated cipher and the random source that the rest of the
//! library is built on.
use aes_gcm::aead::{Aead, KeyInit};
use aes_gcm::Aes256Gcm;
use rand::RngCore;
use vstd::prelude::*;

verus! {

/// Length in bytes of every symmetric key (AES-256).
pub const KEY_LEN: usize = 32;

/// Length in bytes of every nonce (96 bits).
pub const NONCE_LEN: usize = 12;

/// Length in bytes of the authentication tag that follows each ciphertext.
pub const TAG_LEN: usize = 16;

/// Longest plaintext that AES-GCM accepts, in bytes.
pub const MAX_PLAINTEXT: u64 = 0x10_0000_0000;

#[verifier::external_type_specification]
#[verifier::external_body]
pub struct ExAeadError(aes_gcm::Error);

/// The AES-256-GCM sealing of `plain` under `key` and `nonce`, with no
/// associated data: the ciphertext followed by its tag.
pub uninterp spec fn gcm_seal(key: Seq<u8>, nonce: Seq<u8>, plain: Seq<u8>) -> Seq<u8>;

/// What AES-256-GCM opening of `sealed` under `key` and `nonce` yields: the
/// plaintext, or `None` when authentication fails.
pub uninterp spec fn gcm_open(key: Seq<u8>, nonce: Seq<u8>, sealed: Seq<u8>) -> Option<Seq<u8>>;

/// Relies on aes_gcm's `Aes256Gcm` (`KeyInit::new`, then `Aead::encrypt` with
/// no associated data): the ciphertext with a 16-byte tag appended, which opens
/// again to `plain`; it fails only on a plaintext longer than 2^36 bytes.
#[verifier::external_body]
pub(crate) fn aead_seal(key: &[u8], nonce: &[u8], plain: &[u8]) -> (r: Result<Vec<u8>, aes_gcm::Error>)
    requires
        key@.len() == KEY_LEN,
        nonce@.len() == NONCE_LEN,
    ensures
        r is Ok <==> plain@.len() <= MAX_PLAINTEXT,
        r is Ok ==> r->Ok_0@ == gcm_seal(key@, nonce@, plain@),
        r is Ok ==> r->Ok_0@.len() == plain@.len() + TAG_LEN,
        r is Ok ==> gcm_open(key@, nonce@, r->Ok_0@) == Some(plain@),
{
    let cipher = Aes256Gcm::new(aes_gcm::Key::<Aes256Gcm>::from_slice(key));
    cipher.encrypt(aes_gcm::Nonce::from_slice(nonce), plain)
}

/// Relies on aes_gcm's `Aes256Gcm` (`KeyInit::new`, then `Aead::decrypt` with
/// no associated data): the plaintext when the tag authenticates, else an error.
#[verifier::external_body]
pub(crate) fn aead_open(key: &[u8], nonce: &[u8], sealed: &[u8]) -> (r: Result<Vec<u8>, aes_gcm::Error>)
    requires
        key@.len() == KEY_LEN,
        nonce@.len() == NONCE_LEN,
    ensures
        r is Ok <==> gcm_open(key@, nonce@, sealed@) is Some,
        r is Ok ==> gcm_open(key@, nonce@, sealed@) == Some(r->Ok_0@),
{
    let cipher = Aes256Gcm::new(aes_gcm::Key::<Aes256Gcm>::from_slice(key));
    cipher.decrypt(aes_gcm::Nonce::from_slice(nonce), sealed)
}

/// Relies on rand's `OsRng::fill_bytes`: `n` bytes drawn from the operating
/// system's secure generator. Nothing is known of their values.
#[verifier::external_body]
pub(crate) fn random_bytes(n: usize) -> (r: Vec<u8>)
    ensures
        r@.len() == n,
{
    let mut bytes = vec![0u8; n];
    rand::rngs::OsRng.fill_bytes(&mut bytes);
    bytes
}

/// A fresh random nonce.
pub fn fresh_nonce() -> (r: Vec<u8>)
    ensures
        r@.len() == NONCE_LEN,
{
    random_bytes(NONCE_LEN)
}

} // verus!
