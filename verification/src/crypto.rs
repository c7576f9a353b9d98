//! Encryption of stored credential passwords with AES-256-GCM.
//!
//! A sealed value is the base64 (standard alphabet, padded) encoding of the
//! 12-byte nonce followed by the AES-GCM ciphertext and tag. The key comes
//! from the `CREDENTIAL_ENCRYPTION_KEY` setting, 64 hex digits.

use vstd::prelude::*;
use vstd::utf8::{decode_utf8, encode_utf8, valid_utf8};

use aes_gcm::aead::{Aead, KeyInit};
use aes_gcm::{Aes256Gcm, Key, Nonce};
use base64::engine::general_purpose::STANDARD as BASE64;
use base64::Engine;
use rand::RngCore;

use crate::errors::CryptoError;
use crate::text::string_of;

verus! {

broadcast use vstd::utf8::encode_utf8_valid_utf8, vstd::utf8::encode_utf8_decode_utf8;

/// Length in bytes of an AES-256 key.
pub const KEY_LEN: usize = 32;

/// Length in bytes of an AES-GCM nonce.
pub const NONCE_LEN: usize = 12;

/// The largest plaintext, in bytes, that AES-GCM seals (2^36).
pub const MAX_PLAINTEXT_LEN: u64 = 0x10_0000_0000;

/// Ciphertext and tag that `aes-gcm` produces for a plaintext under a key
/// and nonce.
pub uninterp spec fn aes256_gcm_seal(key: Seq<u8>, nonce: Seq<u8>, plaintext: Seq<u8>) -> Seq<u8>;

/// What `aes-gcm` recovers from a ciphertext under a key and nonce, `None`
/// where authentication fails.
pub uninterp spec fn aes256_gcm_open(key: Seq<u8>, nonce: Seq<u8>, ciphertext: Seq<u8>) -> Option<Seq<u8>>;

/// The padded standard-alphabet base64 text of some bytes.
pub uninterp spec fn base64_encode(bytes: Seq<u8>) -> Seq<char>;

/// The bytes that a padded standard-alphabet base64 text denotes, `None` for
/// text that is not such an encoding.
pub uninterp spec fn base64_decode(text: Seq<char>) -> Option<Seq<u8>>;

/// Whether the base64 text of `n` bytes (4 characters per started group of
/// 3 bytes) has a length that fits in a `usize`.
pub open spec fn base64_fits(n: int) -> bool {
    (n + 2) / 3 * 4 <= usize::MAX
}

/// The value of a hexadecimal digit, or `None` for another character.
pub open spec fn hex_digit_value(c: char) -> Option<int> {
    if '0' <= c && c <= '9' {
        Some(c as int - '0' as int)
    } else if 'a' <= c && c <= 'f' {
        Some(c as int - 'a' as int + 10)
    } else if 'A' <= c && c <= 'F' {
        Some(c as int - 'A' as int + 10)
    } else {
        None
    }
}

/// Whether `s` is hexadecimal text: an even number of hex digits.
pub open spec fn is_hex_text(s: Seq<char>) -> bool {
    &&& s.len() % 2 == 0
    &&& forall|i: int| 0 <= i < s.len() ==> (#[trigger] hex_digit_value(s[i])) is Some
}

/// The bytes denoted by hexadecimal text, two digits per byte, high nibble
/// first.
pub open spec fn hex_bytes(s: Seq<char>) -> Seq<u8> {
    Seq::new(
        s.len() / 2,
        |i: int| (hex_digit_value(s[2 * i])->0 * 16 + hex_digit_value(s[2 * i + 1])->0) as u8,
    )
}

/// Views an optional byte vector as an optional byte sequence.
pub open spec fn opt_bytes(o: Option<Vec<u8>>) -> Option<Seq<u8>> {
    match o {
        Some(v) => Some(v@),
        None => None,
    }
}

/// Decodes hexadecimal text with the `hex` crate.
/// Claimed: the text is accepted exactly when it is an even number of hex
/// digits (either case), and then each pair gives one byte.
#[verifier::external_body]
fn hex_decode(text: &str) -> (res: Option<Vec<u8>>)
    ensures
        res is Some <==> is_hex_text(text@),
        res matches Some(b) ==> b@ == hex_bytes(text@),
{
    hex::decode(text).ok()
}

/// Encodes bytes with `base64`'s standard padded engine.
/// Claimed: the result is the named encoding, and decoding it with the same
/// engine gives the bytes back.
#[verifier::external_body]
fn encode_base64(bytes: &[u8]) -> (res: String)
    requires
        base64_fits(bytes@.len() as int),
    ensures
        res@ == base64_encode(bytes@),
        base64_decode(res@) == Some(bytes@),
{
    BASE64.encode(bytes)
}

/// Decodes text with `base64`'s standard padded engine.
/// Claimed: the result is the named decoding of the text.
#[verifier::external_body]
fn decode_base64(text: &str) -> (res: Option<Vec<u8>>)
    ensures
        opt_bytes(res) == base64_decode(text@),
{
    BASE64.decode(text).ok()
}

/// Seals a plaintext with `aes-gcm`'s `Aes256Gcm::encrypt`.
/// Claimed: it succeeds exactly for plaintexts of at most 2^36 bytes; the
/// result is the named ciphertext, 16 bytes longer than the plaintext, and
/// opening it with the same key and nonce gives the plaintext back.
#[verifier::external_body]
fn aes_seal(key: &[u8], nonce: &[u8], plaintext: &[u8]) -> (res: Option<Vec<u8>>)
    requires
        key@.len() == KEY_LEN,
        nonce@.len() == NONCE_LEN,
    ensures
        res is Some <==> plaintext@.len() <= MAX_PLAINTEXT_LEN,
        res matches Some(c) ==> c@ == aes256_gcm_seal(key@, nonce@, plaintext@),
        res matches Some(c) ==> c@.len() == plaintext@.len() + 16,
        res matches Some(c) ==> aes256_gcm_open(key@, nonce@, c@) == Some(plaintext@),
{
    let cipher = Aes256Gcm::new(Key::<Aes256Gcm>::from_slice(key));
    cipher.encrypt(Nonce::from_slice(nonce), plaintext).ok()
}

/// Opens a ciphertext with `aes-gcm`'s `Aes256Gcm::decrypt`.
/// Claimed: the result is the named opening.
#[verifier::external_body]
fn aes_open(key: &[u8], nonce: &[u8], ciphertext: &[u8]) -> (res: Option<Vec<u8>>)
    requires
        key@.len() == KEY_LEN,
        nonce@.len() == NONCE_LEN,
    ensures
        opt_bytes(res) == aes256_gcm_open(key@, nonce@, ciphertext@),
{
    let cipher = Aes256Gcm::new(Key::<Aes256Gcm>::from_slice(key));
    cipher.decrypt(Nonce::from_slice(nonce), ciphertext).ok()
}

/// Twelve bytes from `rand`'s thread-local generator.
/// Claimed: only the length; the bytes are random.
#[verifier::external_body]
fn random_nonce() -> (res: Vec<u8>)
    ensures
        res@.len() == NONCE_LEN,
{
    let mut nonce = [0u8; 12];
    rand::thread_rng().fill_bytes(&mut nonce);
    nonce.to_vec()
}

/// Text from bytes with std's `String::from_utf8`.
/// Claimed: it succeeds exactly on valid UTF-8, with the decoded characters.
#[verifier::external_body]
fn utf8_text(bytes: Vec<u8>) -> (res: Option<String>)
    ensures
        res is Some <==> valid_utf8(bytes@),
        res matches Some(s) ==> s@ == decode_utf8(bytes@),
{
    String::from_utf8(bytes).ok()
}

/// Message: the key setting is absent.
pub open spec fn msg_key_not_set() -> Seq<char> {
    "CREDENTIAL_ENCRYPTION_KEY not set"@
}

/// Message: the key setting is not hexadecimal.
pub open spec fn msg_key_not_hex() -> Seq<char> {
    "CREDENTIAL_ENCRYPTION_KEY is not valid hex"@
}

/// Message: the key setting has the wrong length.
pub open spec fn msg_key_len() -> Seq<char> {
    "CREDENTIAL_ENCRYPTION_KEY must be 32 bytes (64 hex chars)"@
}

/// Message: the AEAD cipher refused (`aead::Error`'s printed form).
pub open spec fn msg_aead() -> Seq<char> {
    "aead::Error"@
}

/// Message: a sealed value is not base64.
pub open spec fn msg_bad_base64() -> Seq<char> {
    "invalid base64"@
}

/// Message: a sealed value is shorter than a nonce.
pub open spec fn msg_too_short() -> Seq<char> {
    "ciphertext too short"@
}

/// Message: the opened plaintext is not UTF-8.
pub open spec fn msg_not_utf8() -> Seq<char> {
    "decrypted data is not valid UTF-8"@
}

/// The key that a setting yields, or the message of why it yields none.
pub open spec fn spec_key(setting: Option<Seq<char>>) -> Result<Seq<u8>, Seq<char>> {
    match setting {
        None => Err(msg_key_not_set()),
        Some(s) => if !is_hex_text(s) {
            Err(msg_key_not_hex())
        } else if hex_bytes(s).len() != KEY_LEN {
            Err(msg_key_len())
        } else {
            Ok(hex_bytes(s))
        },
    }
}

/// The sealed text of a plaintext under a key and nonce, or the message of
/// why sealing fails.
pub open spec fn spec_seal(key: Seq<u8>, nonce: Seq<u8>, plaintext: Seq<char>) -> Result<Seq<char>, Seq<char>> {
    let bytes = encode_utf8(plaintext);
    if bytes.len() > MAX_PLAINTEXT_LEN {
        Err(msg_aead())
    } else {
        Ok(base64_encode(nonce + aes256_gcm_seal(key, nonce, bytes)))
    }
}

/// The plaintext recovered from a sealed text under a key, or the message of
/// why it cannot be.
pub open spec fn spec_open(key: Seq<u8>, sealed: Seq<char>) -> Result<Seq<char>, Seq<char>> {
    match base64_decode(sealed) {
        None => Err(msg_bad_base64()),
        Some(combined) => if combined.len() < NONCE_LEN {
            Err(msg_too_short())
        } else {
            match aes256_gcm_open(
                key,
                combined.subrange(0, NONCE_LEN as int),
                combined.subrange(NONCE_LEN as int, combined.len() as int),
            ) {
                None => Err(msg_aead()),
                Some(p) => if valid_utf8(p) {
                    Ok(decode_utf8(p))
                } else {
                    Err(msg_not_utf8())
                },
            }
        },
    }
}

/// What `encrypt` returns under a key setting for a given nonce.
pub open spec fn spec_encrypt(setting: Option<Seq<char>>, nonce: Seq<u8>, plaintext: Seq<char>) -> Result<Seq<char>, Seq<char>> {
    match spec_key(setting) {
        Err(m) => Err(m),
        Ok(key) => spec_seal(key, nonce, plaintext),
    }
}

/// What `decrypt` returns under a key setting.
pub open spec fn spec_decrypt(setting: Option<Seq<char>>, sealed: Seq<char>) -> Result<Seq<char>, Seq<char>> {
    match spec_key(setting) {
        Err(m) => Err(m),
        Ok(key) => spec_open(key, sealed),
    }
}

/// Views a text result as characters.
pub open spec fn text_result(r: Result<String, CryptoError>) -> Result<Seq<char>, Seq<char>> {
    match r {
        Ok(s) => Ok(s@),
        Err(e) => Err(e.0@),
    }
}

/// Views a key result as bytes.
pub open spec fn key_result(r: Result<Vec<u8>, CryptoError>) -> Result<Seq<u8>, Seq<char>> {
    match r {
        Ok(k) => Ok(k@),
        Err(e) => Err(e.0@),
    }
}

/// Views an optional string slice as characters.
pub open spec fn opt_text(s: Option<&str>) -> Option<Seq<char>> {
    match s {
        Some(t) => Some(t@),
        None => None,
    }
}

/// The encryption key named by the key setting (`None` when the setting is
/// absent): 64 hex digits giving 32 bytes.
pub fn get_key(setting: Option<&str>) -> (res: Result<Vec<u8>, CryptoError>)
    ensures
        key_result(res) == spec_key(opt_text(setting)),
{
    match setting {
        None => Err(CryptoError(string_of("CREDENTIAL_ENCRYPTION_KEY not set"))),
        Some(s) => match hex_decode(s) {
            None => Err(CryptoError(string_of("CREDENTIAL_ENCRYPTION_KEY is not valid hex"))),
            Some(bytes) => if bytes.len() != KEY_LEN {
                Err(CryptoError(string_of("CREDENTIAL_ENCRYPTION_KEY must be 32 bytes (64 hex chars)")))
            } else {
                Ok(bytes)
            },
        },
    }
}

/// Seals `plaintext` under `key` with the given nonce: base64 of the nonce
/// followed by ciphertext and tag.
pub fn seal_with_nonce(key: &Vec<u8>, nonce: &Vec<u8>, plaintext: &str) -> (res: Result<String, CryptoError>)
    requires
        key@.len() == KEY_LEN,
        nonce@.len() == NONCE_LEN,
        base64_fits(encode_utf8(plaintext@).len() + 28int),
    ensures
        text_result(res) == spec_seal(key@, nonce@, plaintext@),
        res matches Ok(c) ==> spec_open(key@, c@) == Ok::<Seq<char>, Seq<char>>(plaintext@),
{
    let bytes = plaintext.as_bytes();
    match aes_seal(key.as_slice(), nonce.as_slice(), bytes) {
        None => Err(CryptoError(string_of("aead::Error"))),
        Some(ciphertext) => {
            let mut combined: Vec<u8> = nonce.clone();
            let mut i: usize = 0;
            while i < ciphertext.len()
                invariant
                    i <= ciphertext.len(),
                    combined@ == nonce@ + ciphertext@.subrange(0, i as int),
                decreases ciphertext.len() - i,
            {
                combined.push(ciphertext[i]);
                i = i + 1;
                assert(ciphertext@.subrange(0, i as int) == ciphertext@.subrange(0, i - 1).push(ciphertext@[i - 1]));
            }
            assert(ciphertext@.subrange(0, ciphertext@.len() as int) == ciphertext@);
            let text = encode_base64(combined.as_slice());
            assert(combined@.subrange(0, NONCE_LEN as int) =~= nonce@);
            assert(combined@.subrange(NONCE_LEN as int, combined@.len() as int) =~= ciphertext@);
            Ok(text)
        },
    }
}

/// Opens a sealed text under `key`.
pub fn open_with_key(key: &Vec<u8>, sealed: &str) -> (res: Result<String, CryptoError>)
    requires
        key@.len() == KEY_LEN,
    ensures
        text_result(res) == spec_open(key@, sealed@),
{
    match decode_base64(sealed) {
        None => Err(CryptoError(string_of("invalid base64"))),
        Some(combined) => {
            if combined.len() < NONCE_LEN {
                return Err(CryptoError(string_of("ciphertext too short")));
            }
            let nonce = vstd::slice::slice_subrange(combined.as_slice(), 0, NONCE_LEN);
            let body = vstd::slice::slice_subrange(combined.as_slice(), NONCE_LEN, combined.len());
            match aes_open(key.as_slice(), nonce, body) {
                None => Err(CryptoError(string_of("aead::Error"))),
                Some(p) => match utf8_text(p) {
                    None => Err(CryptoError(string_of("decrypted data is not valid UTF-8"))),
                    Some(s) => Ok(s),
                },
            }
        },
    }
}

/// Encrypts `plaintext` under the key named by the key setting, with a fresh
/// random nonce. Returns base64(12-byte nonce || ciphertext).
pub fn encrypt(setting: Option<&str>, plaintext: &str) -> (res: Result<String, CryptoError>)
    requires
        base64_fits(encode_utf8(plaintext@).len() + 28int),
    ensures
        exists|nonce: Seq<u8>|
            #![trigger spec_encrypt(opt_text(setting), nonce, plaintext@)]
            nonce.len() == NONCE_LEN && text_result(res) == spec_encrypt(opt_text(setting), nonce, plaintext@),
        res matches Ok(c) ==> spec_decrypt(opt_text(setting), c@) == Ok::<Seq<char>, Seq<char>>(plaintext@),
{
    let nonce = random_nonce();
    let res = match get_key(setting) {
        Err(e) => Err(e),
        Ok(key) => seal_with_nonce(&key, &nonce, plaintext),
    };
    assert(text_result(res) == spec_encrypt(opt_text(setting), nonce@, plaintext@));
    res
}

/// Decrypts a value produced by `encrypt`, under the key named by the key
/// setting.
pub fn decrypt(setting: Option<&str>, sealed: &str) -> (res: Result<String, CryptoError>)
    ensures
        text_result(res) == spec_decrypt(opt_text(setting), sealed@),
{
    match get_key(setting) {
        Err(e) => Err(e),
        Ok(key) => open_with_key(&key, sealed),
    }
}

} // verus!
