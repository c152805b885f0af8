//! Encrypted values: a nonce and the AES-256-GCM ciphertext of the value's
//! byte encoding, under a key that the caller supplies.
use crate::crypto::{
    aead_open, aead_seal, fresh_nonce, gcm_open, gcm_seal, KEY_LEN, MAX_PLAINTEXT, NONCE_LEN, TAG_LEN,
};
use vstd::prelude::*;

verus! {

/// An encrypted value: the nonce it was sealed with and the ciphertext.
/// It names no key; the owner's key must be supplied to open it.
#[derive(Debug)]
pub struct EncryptedField {
    pub nonce: Vec<u8>,
    pub ciphertext: Vec<u8>,
}

/// Why a value could not be encrypted or decrypted.
#[derive(Debug, Clone, Copy, PartialEq, Eq, Structural)]
pub enum EncryptionError {
    /// The decrypted bytes are not the encoding of a value.
    SerializationError,
    /// Authentication failed (wrong key, tampered data) or the field is malformed.
    EncryptionError,
    /// The key is not 32 bytes long.
    InvalidKeyLength,
}

impl EncryptedField {
    pub fn new(nonce: Vec<u8>, ciphertext: Vec<u8>) -> (r: Self)
        ensures
            r.nonce@ == nonce@,
            r.ciphertext@ == ciphertext@,
    {
        EncryptedField { nonce, ciphertext }
    }

    /// A copy of the field.
    pub fn duplicate(&self) -> (r: Self)
        ensures
            r.nonce@ == self.nonce@,
            r.ciphertext@ == self.ciphertext@,
    {
        EncryptedField { nonce: copy_bytes(&self.nonce), ciphertext: copy_bytes(&self.ciphertext) }
    }
}

pub(crate) fn copy_bytes(b: &Vec<u8>) -> (r: Vec<u8>)
    ensures
        r@ == b@,
{
    let mut r: Vec<u8> = Vec::new();
    let mut i: usize = 0;
    while i < b.len()
        invariant
            i <= b@.len(),
            r@ == b@.subrange(0, i as int),
        decreases b@.len() - i,
    {
        r.push(b[i]);
        i = i + 1;
    }
    assert(r@ =~= b@);
    r
}

/// What opening `f` under `key` yields, or `None` where it does not open.
pub open spec fn field_plain(f: EncryptedField, key: Seq<u8>) -> Option<Seq<u8>> {
    if key.len() == KEY_LEN && f.nonce@.len() == NONCE_LEN {
        gcm_open(key, f.nonce@, f.ciphertext@)
    } else {
        None
    }
}

/// The outcome that decrypting `f` under `key` must have.
pub open spec fn decrypted_bytes(f: EncryptedField, key: Seq<u8>) -> Result<Seq<u8>, EncryptionError> {
    if key.len() != KEY_LEN {
        Err(EncryptionError::InvalidKeyLength)
    } else {
        match field_plain(f, key) {
            Some(p) => Ok(p),
            None => Err(EncryptionError::EncryptionError),
        }
    }
}

/// `f` is `plain` sealed under `key` with the nonce that `f` carries.
pub open spec fn seals(f: EncryptedField, key: Seq<u8>, plain: Seq<u8>) -> bool {
    &&& f.nonce@.len() == NONCE_LEN
    &&& f.ciphertext@ == gcm_seal(key, f.nonce@, plain)
    &&& f.ciphertext@.len() == plain.len() + TAG_LEN
    &&& field_plain(f, key) == Some(plain)
}

/// Seals `plain` under `key` with the given 12-byte nonce. The nonce must
/// never have been used with this key before; `encrypt_bytes` draws a fresh one.
pub fn encrypt_bytes_with_nonce(plain: &[u8], key: &[u8], nonce: Vec<u8>) -> (r: Result<
    EncryptedField,
    EncryptionError,
>)
    requires
        nonce@.len() == NONCE_LEN,
    ensures
        key@.len() != KEY_LEN ==> r == Err::<EncryptedField, _>(EncryptionError::InvalidKeyLength),
        key@.len() == KEY_LEN && plain@.len() <= MAX_PLAINTEXT ==> r is Ok,
        key@.len() == KEY_LEN && plain@.len() > MAX_PLAINTEXT ==> r == Err::<EncryptedField, _>(
            EncryptionError::EncryptionError,
        ),
        r is Ok ==> r->Ok_0.nonce@ == nonce@ && seals(r->Ok_0, key@, plain@),
{
    if key.len() != KEY_LEN {
        return Err(EncryptionError::InvalidKeyLength);
    }
    match aead_seal(key, nonce.as_slice(), plain) {
        Ok(ciphertext) => Ok(EncryptedField::new(nonce, ciphertext)),
        Err(_) => Err(EncryptionError::EncryptionError),
    }
}

/// Seals `plain` under `key` with a fresh random nonce.
pub fn encrypt_bytes(plain: &[u8], key: &[u8]) -> (r: Result<EncryptedField, EncryptionError>)
    ensures
        key@.len() != KEY_LEN ==> r == Err::<EncryptedField, _>(EncryptionError::InvalidKeyLength),
        key@.len() == KEY_LEN && plain@.len() <= MAX_PLAINTEXT ==> r is Ok,
        key@.len() == KEY_LEN && plain@.len() > MAX_PLAINTEXT ==> r == Err::<EncryptedField, _>(
            EncryptionError::EncryptionError,
        ),
        r is Ok ==> seals(r->Ok_0, key@, plain@),
{
    if key.len() != KEY_LEN {
        return Err(EncryptionError::InvalidKeyLength);
    }
    encrypt_bytes_with_nonce(plain, key, fresh_nonce())
}

/// Opens `f` under `key`.
pub fn decrypt_bytes(f: &EncryptedField, key: &[u8]) -> (r: Result<Vec<u8>, EncryptionError>)
    ensures
        match decrypted_bytes(*f, key@) {
            Ok(p) => r is Ok && r->Ok_0@ == p,
            Err(e) => r == Err::<Vec<u8>, _>(e),
        },
{
    if key.len() != KEY_LEN {
        return Err(EncryptionError::InvalidKeyLength);
    }
    if f.nonce.len() != NONCE_LEN {
        return Err(EncryptionError::EncryptionError);
    }
    match aead_open(key, f.nonce.as_slice(), f.ciphertext.as_slice()) {
        Ok(p) => Ok(p),
        Err(_) => Err(EncryptionError::EncryptionError),
    }
}

/// Byte length of an encoded amount.
pub const AMOUNT_LEN: usize = 8;

/// The little-endian encoding of an amount.
pub open spec fn amount_bytes(v: u64) -> Seq<u8> {
    seq![
        v as u8,
        (v >> 8u64) as u8,
        (v >> 16u64) as u8,
        (v >> 24u64) as u8,
        (v >> 32u64) as u8,
        (v >> 40u64) as u8,
        (v >> 48u64) as u8,
        (v >> 56u64) as u8,
    ]
}

/// The amount whose little-endian encoding is `b` (eight bytes).
pub open spec fn amount_from_bytes(b: Seq<u8>) -> u64 {
    amount_from_parts(b[0], b[1], b[2], b[3], b[4], b[5], b[6], b[7])
}

pub open spec fn amount_from_parts(b0: u8, b1: u8, b2: u8, b3: u8, b4: u8, b5: u8, b6: u8, b7: u8) -> u64 {
    (b0 as u64) | ((b1 as u64) << 8u64) | ((b2 as u64) << 16u64) | ((b3 as u64) << 24u64)
        | ((b4 as u64) << 32u64) | ((b5 as u64) << 40u64) | ((b6 as u64) << 48u64) | ((b7 as u64)
        << 56u64)
}

/// Decoding the encoding of an amount gives the amount back.
pub proof fn lemma_amount_decode_encode(v: u64)
    ensures
        amount_from_bytes(amount_bytes(v)) == v,
{
    let b = amount_bytes(v);
    assert(amount_from_parts(
        v as u8,
        (v >> 8u64) as u8,
        (v >> 16u64) as u8,
        (v >> 24u64) as u8,
        (v >> 32u64) as u8,
        (v >> 40u64) as u8,
        (v >> 48u64) as u8,
        (v >> 56u64) as u8,
    ) == v) by (bit_vector);
}

/// The encoding of `v`.
pub fn encode_amount(v: u64) -> (r: Vec<u8>)
    ensures
        r@ == amount_bytes(v),
{
    let r = vec![
        v as u8,
        (v >> 8u64) as u8,
        (v >> 16u64) as u8,
        (v >> 24u64) as u8,
        (v >> 32u64) as u8,
        (v >> 40u64) as u8,
        (v >> 48u64) as u8,
        (v >> 56u64) as u8,
    ];
    assert(r@ =~= amount_bytes(v));
    r
}

/// The amount that `b` encodes, or `None` where `b` is not eight bytes long.
pub fn decode_amount(b: &[u8]) -> (r: Option<u64>)
    ensures
        b@.len() == AMOUNT_LEN ==> r == Some(amount_from_bytes(b@)),
        b@.len() != AMOUNT_LEN ==> r is None,
{
    if b.len() != AMOUNT_LEN {
        return None;
    }
    Some(
        (b[0] as u64) | ((b[1] as u64) << 8u64) | ((b[2] as u64) << 16u64) | ((b[3] as u64) << 24u64)
            | ((b[4] as u64) << 32u64) | ((b[5] as u64) << 40u64) | ((b[6] as u64) << 48u64) | ((
        b[7] as u64) << 56u64),
    )
}

/// The outcome that decrypting `f` as an amount under `key` must have.
pub open spec fn decrypted_amount(f: EncryptedField, key: Seq<u8>) -> Result<u64, EncryptionError> {
    match decrypted_bytes(f, key) {
        Ok(p) => if p.len() == AMOUNT_LEN {
            Ok(amount_from_bytes(p))
        } else {
            Err(EncryptionError::SerializationError)
        },
        Err(e) => Err(e),
    }
}

/// `f` holds the amount `v` under `key`.
pub open spec fn holds_amount(f: EncryptedField, key: Seq<u8>, v: u64) -> bool {
    key.len() == KEY_LEN && seals(f, key, amount_bytes(v))
}

/// Encrypts the amount `value` under `key` with the given 12-byte nonce. The
/// nonce must never have been used with this key before; `encrypt_amount`
/// draws a fresh one.
pub fn encrypt_amount_with_nonce(value: u64, key: &[u8], nonce: Vec<u8>) -> (r: Result<
    EncryptedField,
    EncryptionError,
>)
    requires
        nonce@.len() == NONCE_LEN,
    ensures
        key@.len() != KEY_LEN ==> r == Err::<EncryptedField, _>(EncryptionError::InvalidKeyLength),
        key@.len() == KEY_LEN ==> r is Ok,
        r is Ok ==> r->Ok_0.nonce@ == nonce@ && holds_amount(r->Ok_0, key@, value),
        r is Ok ==> decrypted_amount(r->Ok_0, key@) == Ok::<u64, EncryptionError>(value),
{
    let plain = encode_amount(value);
    let r = encrypt_bytes_with_nonce(plain.as_slice(), key, nonce);
    proof {
        lemma_amount_decode_encode(value);
    }
    r
}

/// Encrypts the amount `value` under `key` with a fresh random nonce.
pub fn encrypt_amount(value: u64, key: &[u8]) -> (r: Result<EncryptedField, EncryptionError>)
    ensures
        key@.len() != KEY_LEN ==> r == Err::<EncryptedField, _>(EncryptionError::InvalidKeyLength),
        key@.len() == KEY_LEN ==> r is Ok,
        r is Ok ==> holds_amount(r->Ok_0, key@, value),
        r is Ok ==> decrypted_amount(r->Ok_0, key@) == Ok::<u64, EncryptionError>(value),
{
    if key.len() != KEY_LEN {
        return Err(EncryptionError::InvalidKeyLength);
    }
    encrypt_amount_with_nonce(value, key, fresh_nonce())
}

/// Decrypts the amount that `f` holds under `key`.
pub fn decrypt_amount(f: &EncryptedField, key: &[u8]) -> (r: Result<u64, EncryptionError>)
    ensures
        r == decrypted_amount(*f, key@),
{
    match decrypt_bytes(f, key) {
        Ok(p) => match decode_amount(p.as_slice()) {
            Some(v) => Ok(v),
            None => Err(EncryptionError::SerializationError),
        },
        Err(e) => Err(e),
    }
}

/// Decrypting, under a key, an amount encrypted under that same key gives the
/// amount back.
pub proof fn lemma_amount_round_trip(f: EncryptedField, key: Seq<u8>, v: u64)
    requires
        holds_amount(f, key, v),
    ensures
        decrypted_amount(f, key) == Ok::<u64, EncryptionError>(v),
{
    lemma_amount_decode_encode(v);
}

} // verus!
