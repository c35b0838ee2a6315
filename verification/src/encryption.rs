//! Encryption of short secrets at rest.
//!
//! A secret is sealed with AES-256-GCM under the service's key, with a fresh
//! nonce and with the owner's identity as associated data. What is stored is
//! text: the nonce and the sealed bytes in hexadecimal, with a colon between
//! them.

use vstd::prelude::*;
use vstd::slice::slice_subrange;
use vstd::string::{StringExecFns, StringSliceAdditionalSpecFns};
use vstd::utf8::{
    decode_utf8, encode_utf8, encode_utf8_decode_utf8, encode_utf8_valid_utf8,
    is_ascii_chars_encode_utf8, valid_utf8,
};
use crate::errors::ServiceError;
use crate::hexcode::{
    hex_bytes, hex_decode, hex_encode, hex_text, is_hex, lemma_hex_bytes_are_digits,
    lemma_text_bytes, lemma_unhex_hex, unhex,
};
use crate::random::random_bytes;
use crate::text::string_from_utf8;

verus! {

/// The length of a key, in bytes.
pub const KEY_LENGTH: usize = 32;

/// The length of a nonce, in bytes.
pub const NONCE_LENGTH: usize = 12;

/// The most bytes that a message, or its associated data, may have.
pub const SEAL_LIMIT: u64 = 0x10_0000_0000;

/// The ASCII code of the colon that parts the nonce from the sealed bytes.
pub const COLON: u8 = 58;

/// What AES-256-GCM makes of a message: the ciphertext followed by its tag,
/// or nothing where the cipher refuses the lengths.
pub uninterp spec fn aes256_gcm_seal(
    key: Seq<u8>,
    nonce: Seq<u8>,
    aad: Seq<u8>,
    msg: Seq<u8>,
) -> Option<Seq<u8>>;

/// What AES-256-GCM recovers from sealed bytes, or nothing where they do not
/// authenticate under the key, the nonce and the associated data.
pub uninterp spec fn aes256_gcm_open(
    key: Seq<u8>,
    nonce: Seq<u8>,
    aad: Seq<u8>,
    sealed: Seq<u8>,
) -> Option<Seq<u8>>;

/// The bytes of an optional buffer.
pub open spec fn bytes_of(buffer: Option<Vec<u8>>) -> Option<Seq<u8>> {
    match buffer {
        Some(v) => Some(v@),
        None => None,
    }
}

/// Calls `Aead::encrypt` of `aes_gcm::Aes256Gcm`. The result depends on the
/// four byte strings alone. The cipher refuses a message or associated data
/// of more than 2^36 bytes and nothing else, and what it sealed opens again,
/// under the same key, nonce and associated data, to the message.
#[verifier::external_body]
pub(crate) fn aead_seal(
    key: &[u8],
    nonce: &[u8],
    aad: &[u8],
    msg: &[u8],
) -> (sealed: Option<Vec<u8>>)
    requires
        key@.len() == KEY_LENGTH,
        nonce@.len() == NONCE_LENGTH,
    ensures
        bytes_of(sealed) == aes256_gcm_seal(key@, nonce@, aad@, msg@),
        sealed is Some <==> (msg@.len() <= SEAL_LIMIT && aad@.len() <= SEAL_LIMIT),
        sealed matches Some(c) ==> aes256_gcm_open(key@, nonce@, aad@, c@) == Some(msg@),
{
    let cipher = <aes_gcm::Aes256Gcm as aes_gcm::KeyInit>::new_from_slice(key).ok()?;
    let payload = aes_gcm::aead::Payload { msg, aad };
    aes_gcm::aead::Aead::encrypt(&cipher, aes_gcm::Nonce::from_slice(nonce), payload).ok()
}

/// Calls `Aead::decrypt` of `aes_gcm::Aes256Gcm`. The result depends on the
/// four byte strings alone.
#[verifier::external_body]
pub(crate) fn aead_open(
    key: &[u8],
    nonce: &[u8],
    aad: &[u8],
    sealed: &[u8],
) -> (msg: Option<Vec<u8>>)
    requires
        key@.len() == KEY_LENGTH,
        nonce@.len() == NONCE_LENGTH,
    ensures
        bytes_of(msg) == aes256_gcm_open(key@, nonce@, aad@, sealed@),
{
    let cipher = <aes_gcm::Aes256Gcm as aes_gcm::KeyInit>::new_from_slice(key).ok()?;
    let payload = aes_gcm::aead::Payload { msg: sealed, aad };
    aes_gcm::aead::Aead::decrypt(&cipher, aes_gcm::Nonce::from_slice(nonce), payload).ok()
}

/// The stored form of sealed bytes: nonce and sealed bytes in hexadecimal,
/// parted by a colon.
pub open spec fn blob_text(nonce: Seq<u8>, sealed: Seq<u8>) -> Seq<char> {
    hex_text(nonce) + seq![':'] + hex_text(sealed)
}

/// The blob that sealing `plaintext` for `associated_data` under `key` with
/// `nonce` gives, if the key and the nonce have their lengths and the cipher
/// accepts the message.
pub open spec fn sealed_blob(
    plaintext: Seq<char>,
    associated_data: Seq<char>,
    key: Seq<u8>,
    nonce: Seq<u8>,
) -> Option<Seq<char>> {
    if key.len() != KEY_LENGTH || nonce.len() != NONCE_LENGTH {
        None
    } else {
        match aes256_gcm_seal(key, nonce, encode_utf8(associated_data), encode_utf8(plaintext)) {
            Some(sealed) => Some(blob_text(nonce, sealed)),
            None => None,
        }
    }
}

/// Position `at` holds the first colon of `bytes`.
pub open spec fn first_colon(bytes: Seq<u8>, at: int) -> bool {
    &&& 0 <= at < bytes.len()
    &&& bytes[at] == COLON
    &&& forall|j: int| 0 <= j < at ==> bytes[j] != COLON
}

/// What a blob parted at `at` opens to.
pub open spec fn opened_at(
    bytes: Seq<u8>,
    at: int,
    associated_data: Seq<char>,
    key: Seq<u8>,
) -> Option<Seq<char>> {
    let nonce_hex = bytes.subrange(0, at);
    let sealed_hex = bytes.subrange(at + 1, bytes.len() as int);
    if key.len() != KEY_LENGTH || !is_hex(nonce_hex) || !is_hex(sealed_hex) || unhex(
        nonce_hex,
    ).len() != NONCE_LENGTH {
        None
    } else {
        match aes256_gcm_open(
            key,
            unhex(nonce_hex),
            encode_utf8(associated_data),
            unhex(sealed_hex),
        ) {
            Some(msg) => if valid_utf8(msg) {
                Some(decode_utf8(msg))
            } else {
                None
            },
            None => None,
        }
    }
}

/// What `blob` opens to for `associated_data` under `key`: nothing unless
/// the blob has a colon, both of its parts are hexadecimal, the nonce has
/// its length, the sealed bytes authenticate and the message is text.
pub open spec fn opened_text(
    blob: Seq<char>,
    associated_data: Seq<char>,
    key: Seq<u8>,
) -> Option<Seq<char>> {
    let bytes = encode_utf8(blob);
    if exists|at: int| first_colon(bytes, at) {
        opened_at(bytes, choose|at: int| first_colon(bytes, at), associated_data, key)
    } else {
        None
    }
}

/// A byte string has at most one first colon.
proof fn lemma_first_colon_unique(bytes: Seq<u8>, a: int, b: int)
    requires
        first_colon(bytes, a),
        first_colon(bytes, b),
    ensures
        a == b,
{
    if a < b {
        assert(bytes[a] != COLON);
    } else if b < a {
        assert(bytes[b] != COLON);
    }
}

/// The bytes of a blob are the two encodings with a colon between them, and
/// the colon is the first one.
proof fn lemma_blob_bytes(nonce: Seq<u8>, sealed: Seq<u8>)
    ensures
        encode_utf8(blob_text(nonce, sealed)) == hex_bytes(nonce) + seq![COLON] + hex_bytes(
            sealed,
        ),
        first_colon(encode_utf8(blob_text(nonce, sealed)), 2 * nonce.len() as int),
{
    let text = blob_text(nonce, sealed);
    let want = hex_bytes(nonce) + seq![COLON] + hex_bytes(sealed);
    lemma_text_bytes(nonce);
    lemma_text_bytes(sealed);
    lemma_hex_bytes_are_digits(nonce);
    let left = hex_text(nonce);
    let right = hex_text(sealed);
    is_ascii_chars_encode_utf8(left);
    is_ascii_chars_encode_utf8(right);
    assert forall|i: int| 0 <= i < text.len() implies '\0' <= #[trigger] text[i] <= '\u{7f}'
        && text[i] as u8 == want[i] by {
        if i < left.len() {
            assert(text[i] == left[i]);
            assert(want[i] == hex_bytes(nonce)[i]);
        } else if i == left.len() {
            assert(text[i] == ':');
        } else {
            assert(text[i] == right[i - left.len() - 1]);
            assert(want[i] == hex_bytes(sealed)[i - left.len() - 1]);
        }
    }
    is_ascii_chars_encode_utf8(text);
    assert(encode_utf8(text) =~= want);
    assert forall|j: int| 0 <= j < 2 * nonce.len() implies want[j] != COLON by {
        assert(want[j] == hex_bytes(nonce)[j]);
    }
}

/// A blob made by sealing opens to the plaintext it was made from.
pub proof fn lemma_sealed_blob_opens(
    plaintext: Seq<char>,
    associated_data: Seq<char>,
    key: Seq<u8>,
    nonce: Seq<u8>,
    sealed: Seq<u8>,
)
    requires
        key.len() == KEY_LENGTH,
        nonce.len() == NONCE_LENGTH,
        aes256_gcm_open(key, nonce, encode_utf8(associated_data), sealed) == Some(
            encode_utf8(plaintext),
        ),
    ensures
        opened_text(blob_text(nonce, sealed), associated_data, key) == Some(plaintext),
{
    let bytes = encode_utf8(blob_text(nonce, sealed));
    lemma_blob_bytes(nonce, sealed);
    let at: int = 2 * nonce.len() as int;
    let chosen = choose|i: int| first_colon(bytes, i);
    lemma_first_colon_unique(bytes, at, chosen);
    lemma_hex_bytes_are_digits(nonce);
    lemma_hex_bytes_are_digits(sealed);
    assert(bytes.subrange(0, at) =~= hex_bytes(nonce));
    assert(bytes.subrange(at + 1, bytes.len() as int) =~= hex_bytes(sealed));
    lemma_unhex_hex(nonce);
    lemma_unhex_hex(sealed);
    encode_utf8_valid_utf8(plaintext);
    encode_utf8_decode_utf8(plaintext);
}

/// Seals `plaintext` for `associated_data` under `key` with the given nonce.
///
/// Fails with `CryptoError` where the key is not 32 bytes, the nonce not 12,
/// or the cipher refuses the message.
pub fn encrypt_with_nonce(
    plaintext: &str,
    associated_data: &str,
    key: &[u8],
    nonce: &[u8],
) -> (blob: Result<String, ServiceError>)
    ensures
        match blob {
            Ok(text) => sealed_blob(plaintext@, associated_data@, key@, nonce@) == Some(text@)
                && opened_text(text@, associated_data@, key@) == Some(plaintext@),
            Err(e) => e == ServiceError::CryptoError && sealed_blob(
                plaintext@,
                associated_data@,
                key@,
                nonce@,
            ) is None,
        },
        blob is Ok <==> key@.len() == KEY_LENGTH && nonce@.len() == NONCE_LENGTH
            && plaintext.spec_bytes().len() <= SEAL_LIMIT && associated_data.spec_bytes().len()
            <= SEAL_LIMIT,
{
    if key.len() != KEY_LENGTH || nonce.len() != NONCE_LENGTH {
        return Err(ServiceError::CryptoError);
    }
    match aead_seal(key, nonce, associated_data.as_bytes(), plaintext.as_bytes()) {
        Some(sealed) => {
            let mut text = hex_encode(nonce);
            text.append(":");
            let tail = hex_encode(sealed.as_slice());
            text.append(tail.as_str());
            proof {
                reveal_strlit(":");
                assert(":"@ =~= seq![':']);
                assert(text@ =~= blob_text(nonce@, sealed@));
                lemma_sealed_blob_opens(plaintext@, associated_data@, key@, nonce@, sealed@);
            }
            Ok(text)
        },
        None => Err(ServiceError::CryptoError),
    }
}

/// Seals `plaintext` for `associated_data` under `key`, with a nonce drawn
/// at random.
///
/// Fails with `CryptoError` where the key is not 32 bytes or the cipher
/// refuses the message. Whatever nonce was drawn, the blob opens again to
/// `plaintext` for the same associated data and key.
pub fn encrypt(
    plaintext: &str,
    associated_data: &str,
    key: &[u8],
) -> (blob: Result<String, ServiceError>)
    ensures
        blob is Ok <==> key@.len() == KEY_LENGTH && plaintext.spec_bytes().len() <= SEAL_LIMIT
            && associated_data.spec_bytes().len() <= SEAL_LIMIT,
        blob matches Ok(text) ==> opened_text(text@, associated_data@, key@) == Some(plaintext@),
        blob matches Ok(text) ==> exists|nonce: Seq<u8>|
            nonce.len() == NONCE_LENGTH && #[trigger] sealed_blob(
                plaintext@,
                associated_data@,
                key@,
                nonce,
            ) == Some(text@),
        blob matches Err(e) ==> e == ServiceError::CryptoError,
{
    let nonce = random_bytes(NONCE_LENGTH);
    encrypt_with_nonce(plaintext, associated_data, key, nonce.as_slice())
}

/// The position of the first colon of `bytes`, if there is one.
fn find_colon(bytes: &[u8]) -> (found: Option<usize>)
    ensures
        match found {
            Some(at) => first_colon(bytes@, at as int),
            None => forall|at: int| !first_colon(bytes@, at),
        },
{
    let mut i: usize = 0;
    while i < bytes.len()
        invariant
            i <= bytes@.len(),
            forall|j: int| 0 <= j < i ==> bytes@[j] != COLON,
        decreases bytes@.len() - i,
    {
        if bytes[i] == COLON {
            return Some(i);
        }
        i = i + 1;
    }
    assert forall|at: int| !first_colon(bytes@, at) by {
        if 0 <= at < bytes@.len() {
            assert(bytes@[at] != COLON);
        }
    }
    None
}

/// Opens a blob that `encrypt` made for `associated_data` under `key`.
///
/// It fails closed: whatever is wrong with the key, the blob's form, the
/// authentication or the message, the answer is `CryptoError` and no part of
/// a plaintext.
pub fn decrypt(
    blob: &str,
    associated_data: &str,
    key: &[u8],
) -> (plaintext: Result<String, ServiceError>)
    ensures
        match plaintext {
            Ok(text) => opened_text(blob@, associated_data@, key@) == Some(text@),
            Err(e) => e == ServiceError::CryptoError && opened_text(blob@, associated_data@, key@)
                is None,
        },
{
    let bytes = blob.as_bytes();
    let at = match find_colon(bytes) {
        Some(at) => at,
        None => {
            return Err(ServiceError::CryptoError);
        },
    };
    proof {
        lemma_first_colon_unique(
            bytes@,
            at as int,
            choose|i: int| first_colon(bytes@, i),
        );
    }
    if key.len() != KEY_LENGTH {
        return Err(ServiceError::CryptoError);
    }
    let nonce = match hex_decode(slice_subrange(bytes, 0, at)) {
        Some(nonce) => nonce,
        None => {
            return Err(ServiceError::CryptoError);
        },
    };
    let sealed = match hex_decode(slice_subrange(bytes, at + 1, bytes.len())) {
        Some(sealed) => sealed,
        None => {
            return Err(ServiceError::CryptoError);
        },
    };
    if nonce.len() != NONCE_LENGTH {
        return Err(ServiceError::CryptoError);
    }
    let aad = associated_data.as_bytes();
    let msg = match aead_open(key, nonce.as_slice(), aad, sealed.as_slice()) {
        Some(msg) => msg,
        None => {
            return Err(ServiceError::CryptoError);
        },
    };
    match string_from_utf8(msg) {
        Some(text) => Ok(text),
        None => Err(ServiceError::CryptoError),
    }
}

/// Reads the secret key from its hexadecimal form.
///
/// The key is accepted exactly when the text is 64 hexadecimal digits, which
/// stand for its 32 bytes; anything else is a `ConfigError`.
pub fn hex_to_bytes(hex: &str) -> (key: Result<Vec<u8>, ServiceError>)
    ensures
        key is Ok <==> is_hex(hex.spec_bytes()) && hex.spec_bytes().len() == 2 * KEY_LENGTH,
        key matches Ok(bytes) ==> bytes@ == unhex(hex.spec_bytes()) && bytes@.len() == KEY_LENGTH,
        key matches Err(e) ==> e == ServiceError::ConfigError,
{
    match hex_decode(hex.as_bytes()) {
        Some(bytes) => {
            if bytes.len() == KEY_LENGTH {
                Ok(bytes)
            } else {
                Err(ServiceError::ConfigError)
            }
        },
        None => Err(ServiceError::ConfigError),
    }
}

} // verus!
