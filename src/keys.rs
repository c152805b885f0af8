//! Envelope encryption of user keys: each user's key is stored sealed under
//! the master key, as the nonce followed by the ciphertext.
use crate::crypto::{
    aead_open, aead_seal, fresh_nonce, gcm_open, gcm_seal, random_bytes, KEY_LEN, MAX_PLAINTEXT,
    NONCE_LEN, TAG_LEN,
};
use vstd::prelude::*;
use vstd::slice::slice_subrange;

verus! {

/// Why a user key could not be wrapped or unwrapped.
#[derive(Debug, Clone, Copy, PartialEq, Eq, Structural)]
pub enum KeyManagementError {
    /// Authentication failed (wrong master key, tampered data) or the
    /// wrapped key is malformed.
    EncryptionError,
    /// The master key is not 32 bytes long.
    InvalidKeyLength,
}

/// `a` followed by `b`.
pub fn concat_bytes(a: &[u8], b: &[u8]) -> (r: Vec<u8>)
    ensures
        r@ == a@ + b@,
{
    let mut r: Vec<u8> = Vec::new();
    let mut i: usize = 0;
    while i < a.len()
        invariant
            i <= a@.len(),
            r@ == a@.subrange(0, i as int),
        decreases a@.len() - i,
    {
        r.push(a[i]);
        i = i + 1;
    }
    let mut j: usize = 0;
    while j < b.len()
        invariant
            i == a@.len(),
            j <= b@.len(),
            r@ == a@ + b@.subrange(0, j as int),
        decreases b@.len() - j,
    {
        r.push(b[j]);
        j = j + 1;
    }
    assert(r@ =~= a@ + b@);
    r
}

/// `wrapped` is `user_key` sealed under `master_key`: a 12-byte nonce
/// followed by the sealing made with it.
pub open spec fn wraps(wrapped: Seq<u8>, user_key: Seq<u8>, master_key: Seq<u8>) -> bool {
    &&& wrapped.len() >= NONCE_LEN
    &&& wrapped.skip(NONCE_LEN as int) == gcm_seal(master_key, wrapped.take(NONCE_LEN as int), user_key)
    &&& gcm_open(master_key, wrapped.take(NONCE_LEN as int), wrapped.skip(NONCE_LEN as int)) == Some(user_key)
}

/// The outcome that unwrapping `wrapped` under `master_key` must have.
pub open spec fn unwrapped_key(wrapped: Seq<u8>, master_key: Seq<u8>) -> Result<Seq<u8>, KeyManagementError> {
    if master_key.len() != KEY_LEN {
        Err(KeyManagementError::InvalidKeyLength)
    } else if wrapped.len() < NONCE_LEN {
        Err(KeyManagementError::EncryptionError)
    } else {
        match gcm_open(master_key, wrapped.take(NONCE_LEN as int), wrapped.skip(NONCE_LEN as int)) {
            Some(k) => Ok(k),
            None => Err(KeyManagementError::EncryptionError),
        }
    }
}

/// Wraps `user_key` under `master_key` with the given 12-byte nonce. The nonce
/// must never have been used with this master key before; `encrypt_user_key`
/// draws a fresh one.
pub fn encrypt_user_key_with_nonce(user_key: &[u8], master_key: &[u8], nonce: &[u8]) -> (r: Result<
    Vec<u8>,
    KeyManagementError,
>)
    requires
        nonce@.len() == NONCE_LEN,
    ensures
        master_key@.len() != KEY_LEN ==> r == Err::<Vec<u8>, _>(KeyManagementError::InvalidKeyLength),
        master_key@.len() == KEY_LEN && user_key@.len() <= MAX_PLAINTEXT ==> r is Ok,
        master_key@.len() == KEY_LEN && user_key@.len() > MAX_PLAINTEXT ==> r == Err::<Vec<u8>, _>(
            KeyManagementError::EncryptionError,
        ),
        r is Ok ==> r->Ok_0@ == nonce@ + gcm_seal(master_key@, nonce@, user_key@),
        r is Ok ==> r->Ok_0@.len() == NONCE_LEN + user_key@.len() + TAG_LEN,
        r is Ok ==> wraps(r->Ok_0@, user_key@, master_key@),
{
    if master_key.len() != KEY_LEN {
        return Err(KeyManagementError::InvalidKeyLength);
    }
    match aead_seal(master_key, nonce, user_key) {
        Ok(ciphertext) => {
            let wrapped = concat_bytes(nonce, ciphertext.as_slice());
            assert(wrapped@.take(NONCE_LEN as int) =~= nonce@);
            assert(wrapped@.skip(NONCE_LEN as int) =~= ciphertext@);
            Ok(wrapped)
        },
        Err(_) => Err(KeyManagementError::EncryptionError),
    }
}

/// Wraps `user_key` under `master_key` with a fresh random nonce.
pub fn encrypt_user_key(user_key: &[u8], master_key: &[u8]) -> (r: Result<Vec<u8>, KeyManagementError>)
    ensures
        master_key@.len() != KEY_LEN ==> r == Err::<Vec<u8>, _>(KeyManagementError::InvalidKeyLength),
        master_key@.len() == KEY_LEN && user_key@.len() <= MAX_PLAINTEXT ==> r is Ok,
        master_key@.len() == KEY_LEN && user_key@.len() > MAX_PLAINTEXT ==> r == Err::<Vec<u8>, _>(
            KeyManagementError::EncryptionError,
        ),
        r is Ok ==> wraps(r->Ok_0@, user_key@, master_key@),
        r is Ok ==> r->Ok_0@.len() == NONCE_LEN + user_key@.len() + TAG_LEN,
        r is Ok ==> unwrapped_key(r->Ok_0@, master_key@) == Ok::<Seq<u8>, KeyManagementError>(user_key@),
{
    if master_key.len() != KEY_LEN {
        return Err(KeyManagementError::InvalidKeyLength);
    }
    let nonce = fresh_nonce();
    encrypt_user_key_with_nonce(user_key, master_key, nonce.as_slice())
}

/// Unwraps a user key: the first 12 bytes are the nonce, the rest the
/// sealed key.
pub fn decrypt_user_key(encrypted_user_key: &[u8], master_key: &[u8]) -> (r: Result<
    Vec<u8>,
    KeyManagementError,
>)
    ensures
        match unwrapped_key(encrypted_user_key@, master_key@) {
            Ok(k) => r is Ok && r->Ok_0@ == k,
            Err(e) => r == Err::<Vec<u8>, _>(e),
        },
{
    if master_key.len() != KEY_LEN {
        return Err(KeyManagementError::InvalidKeyLength);
    }
    if encrypted_user_key.len() < NONCE_LEN {
        return Err(KeyManagementError::EncryptionError);
    }
    let nonce = slice_subrange(encrypted_user_key, 0, NONCE_LEN);
    let sealed = slice_subrange(encrypted_user_key, NONCE_LEN, encrypted_user_key.len());
    assert(nonce@ =~= encrypted_user_key@.take(NONCE_LEN as int));
    assert(sealed@ =~= encrypted_user_key@.skip(NONCE_LEN as int));
    match aead_open(master_key, nonce, sealed) {
        Ok(k) => Ok(k),
        Err(_) => Err(KeyManagementError::EncryptionError),
    }
}

/// A new random 32-byte user key.
pub fn generate_random_key() -> (r: Vec<u8>)
    ensures
        r@.len() == KEY_LEN,
{
    random_bytes(KEY_LEN)
}

/// Unwrapping, under a master key, a user key wrapped under that same master
/// key gives the user key back.
pub proof fn lemma_envelope_round_trip(wrapped: Seq<u8>, user_key: Seq<u8>, master_key: Seq<u8>)
    requires
        master_key.len() == KEY_LEN,
        wraps(wrapped, user_key, master_key),
    ensures
        unwrapped_key(wrapped, master_key) == Ok::<Seq<u8>, KeyManagementError>(user_key),
{
}

/// The value of the hexadecimal digit `c` (either case), or `None`.
pub open spec fn hex_digit(c: u8) -> Option<u8> {
    if 48 <= c <= 57 {
        Some((c - 48) as u8)
    } else if 97 <= c <= 102 {
        Some((c - 87) as u8)
    } else if 65 <= c <= 70 {
        Some((c - 55) as u8)
    } else {
        None
    }
}

/// `text` is the hexadecimal spelling of `key`: two digits per byte, high
/// digit first.
pub open spec fn spells_key(text: Seq<u8>, key: Seq<u8>) -> bool {
    &&& text.len() == 2 * key.len()
    &&& forall|i: int|
        0 <= i < key.len() ==> hex_digit(#[trigger] text[2 * i]) is Some && hex_digit(text[2 * i + 1]) is Some
            && key[i] == hex_digit(text[2 * i])->0 * 16 + hex_digit(text[2 * i + 1])->0
}

fn digit_value(c: u8) -> (r: Option<u8>)
    ensures
        r == hex_digit(c),
{
    if 48 <= c && c <= 57 {
        Some(c - 48)
    } else if 97 <= c && c <= 102 {
        Some(c - 87)
    } else if 65 <= c && c <= 70 {
        Some(c - 55)
    } else {
        None
    }
}

/// Reads a master key written as 64 hexadecimal digits; `None` where `text`
/// is anything else.
pub fn parse_master_key(text: &[u8]) -> (r: Option<Vec<u8>>)
    ensures
        match r {
            Some(k) => k@.len() == KEY_LEN && spells_key(text@, k@),
            None => forall|k: Seq<u8>| k.len() == KEY_LEN ==> !spells_key(text@, k),
        },
{
    if text.len() != 2 * KEY_LEN {
        return None;
    }
    let mut key: Vec<u8> = Vec::new();
    let mut i: usize = 0;
    while i < KEY_LEN
        invariant
            i <= KEY_LEN,
            text@.len() == 2 * KEY_LEN,
            key@.len() == i,
            forall|j: int|
                0 <= j < i ==> hex_digit(#[trigger] text@[2 * j]) is Some && hex_digit(text@[2 * j + 1]) is Some
                    && key@[j] == hex_digit(text@[2 * j])->0 * 16 + hex_digit(text@[2 * j + 1])->0,
        decreases KEY_LEN - i,
    {
        let hi = digit_value(text[2 * i]);
        let lo = digit_value(text[2 * i + 1]);
        match (hi, lo) {
            (Some(h), Some(l)) => {
                key.push(h * 16 + l);
            },
            _ => {
                proof {
                    assert forall|k: Seq<u8>| k.len() == KEY_LEN implies !spells_key(text@, k) by {
                        if spells_key(text@, k) {
                            assert(hex_digit(text@[2 * (i as int)]) is Some);
                        }
                    }
                }
                return None;
            },
        }
        i = i + 1;
    }
    Some(key)
}

} // verus!
