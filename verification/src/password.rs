//! Password hashing.
//!
//! A stored hash names its own algorithm in its first characters, so a
//! password is verified by what the hash says it is, not by what the service
//! is configured to produce today. The hashing itself is done by the
//! `bcrypt` and `rust-argon2` crates.

use vstd::prelude::*;
use vstd::string::{StrSliceExecFns, StringExecFns, StringSliceAdditionalSpecFns};
use vstd::utf8::encode_utf8;
use crate::errors::ServiceError;
use crate::random::random_bytes;
use crate::text::digit_char;

verus! {

/// The work factor of the bcrypt hashes that the service makes.
pub const BCRYPT_COST: u32 = 12;

/// The number of random bytes that salt an Argon2 hash.
pub const SALT_LENGTH: usize = 32;

/// The number of random bytes that salt a bcrypt hash.
pub const BCRYPT_SALT_LENGTH: usize = 16;

/// The least and the greatest work factor that bcrypt takes.
pub const BCRYPT_MIN_COST: u32 = 4;

pub const BCRYPT_MAX_COST: u32 = 31;

/// The fewest bytes of salt that Argon2 takes.
pub const ARGON2_MIN_SALT: usize = 8;

/// The most bytes that Argon2 takes as a password or as a salt.
pub const ARGON2_MAX_LENGTH: u64 = 0xFFFF_FFFF;

/// The bcrypt hash of `password` with work factor `cost` and `salt`, written
/// out in version 2b; nothing where the crate refuses the work factor.
pub uninterp spec fn bcrypt_encoded(password: Seq<u8>, cost: u32, salt: Seq<u8>) -> Option<Seq<char>>;

/// Whether bcrypt finds that `hash` was made from `password`; nothing where
/// `hash` is not a bcrypt hash.
pub uninterp spec fn bcrypt_accepts(password: Seq<u8>, hash: Seq<char>) -> Option<bool>;

/// Whether Argon2 finds that the encoded hash was made from `password`;
/// nothing where `encoded` cannot be read as an Argon2 hash.
pub uninterp spec fn argon2_accepts(encoded: Seq<char>, password: Seq<u8>) -> Option<bool>;

/// The encoded Argon2 hash of `password` with `salt`, under the parameters
/// that the `rust-argon2` crate takes by default; nothing where the crate
/// refuses the lengths.
pub uninterp spec fn argon2_encoded(password: Seq<u8>, salt: Seq<u8>) -> Option<Seq<char>>;

/// The characters that every encoded Argon2 hash begins with.
pub open spec fn argon2_prefix() -> Seq<char> {
    seq!['$', 'a', 'r', 'g', 'o', 'n', '2']
}

/// The characters that a bcrypt hash of work factor `cost` begins with: the
/// version, then the work factor in two digits.
pub open spec fn bcrypt_head(cost: u32) -> Seq<char> {
    seq!['$', '2', 'b', '$', digit_char(cost as int / 10), digit_char(cost as int % 10), '$']
}

/// Argon2 takes the password and the salt: neither is too long, and the
/// salt is not too short.
pub open spec fn argon2_takes(password: Seq<u8>, salt: Seq<u8>) -> bool {
    password.len() <= ARGON2_MAX_LENGTH && ARGON2_MIN_SALT <= salt.len() <= ARGON2_MAX_LENGTH
}

/// `hash` presents itself as an Argon2 hash.
pub open spec fn is_argon2_format(hash: Seq<char>) -> bool {
    hash.len() >= 7 && hash.subrange(0, 7) == argon2_prefix()
}

/// The text of an optional string.
pub open spec fn text_of(text: Option<String>) -> Option<Seq<char>> {
    match text {
        Some(s) => Some(s@),
        None => None,
    }
}

/// Calls `bcrypt::hash_with_salt_bytes` and reads the bytes as text. The
/// result depends on the password, the work factor and the salt alone. The
/// call succeeds exactly for a work factor from 4 to 31. A hash has 60
/// characters, begins with `$2b$` and the work factor in two digits, and is
/// accepted by `bcrypt::verify` for the same password.
#[verifier::external_body]
pub(crate) fn bcrypt_hash(password: &[u8], cost: u32, salt: &[u8]) -> (hash: Option<String>)
    requires
        salt@.len() == BCRYPT_SALT_LENGTH,
    ensures
        text_of(hash) == bcrypt_encoded(password@, cost, salt@),
        hash is Some <==> BCRYPT_MIN_COST <= cost <= BCRYPT_MAX_COST,
        hash matches Some(h) ==> h@.len() == 60 && h@.subrange(0, 7) == bcrypt_head(cost),
        hash matches Some(h) ==> bcrypt_accepts(password@, h@) == Some(true),
{
    let salt: [u8; 16] = salt.try_into().ok()?;
    let bytes = bcrypt::hash_with_salt_bytes(password, cost, salt).ok()?;
    String::from_utf8(bytes.to_vec()).ok()
}

/// Calls `bcrypt::verify`. The result depends on the password and the hash
/// alone.
#[verifier::external_body]
pub(crate) fn bcrypt_verify(password: &[u8], hash: &str) -> (accepted: Option<bool>)
    ensures
        accepted == bcrypt_accepts(password@, hash@),
{
    bcrypt::verify(password, hash).ok()
}

/// Calls `argon2::hash_encoded` with the crate's default parameters. The
/// result depends on the password and the salt alone. The call succeeds
/// exactly where the salt has 8 bytes or more and neither the salt nor the
/// password has more than 2^32 - 1. An encoded hash begins with `$argon2`,
/// and `argon2::verify_encoded` accepts it for the same password.
#[verifier::external_body]
pub(crate) fn argon2_hash(password: &[u8], salt: &[u8]) -> (encoded: Option<String>)
    ensures
        text_of(encoded) == argon2_encoded(password@, salt@),
        encoded is Some <==> argon2_takes(password@, salt@),
        encoded matches Some(h) ==> is_argon2_format(h@),
        encoded matches Some(h) ==> argon2_accepts(h@, password@) == Some(true),
{
    argon2::hash_encoded(password, salt, &argon2::Config::default()).ok()
}

/// Calls `argon2::verify_encoded`. The result depends on the encoded hash
/// and the password alone.
#[verifier::external_body]
pub(crate) fn argon2_verify(encoded: &str, password: &[u8]) -> (accepted: Option<bool>)
    ensures
        accepted == argon2_accepts(encoded@, password@),
{
    argon2::verify_encoded(encoded, password).ok()
}

/// `stored_hash` was made from `password`, by the algorithm that the hash
/// names. A hash that does not present itself as Argon2 is read as bcrypt.
pub open spec fn password_matches(password: Seq<char>, stored_hash: Seq<char>) -> bool {
    if is_argon2_format(stored_hash) {
        argon2_accepts(stored_hash, encode_utf8(password)) == Some(true)
    } else {
        bcrypt_accepts(encode_utf8(password), stored_hash) == Some(true)
    }
}

/// Tells whether `hash` begins as an encoded Argon2 hash does.
pub fn has_argon2_format(hash: &str) -> (found: bool)
    ensures
        found == is_argon2_format(hash@),
{
    if hash.unicode_len() < 7 {
        return false;
    }
    let found = hash.get_char(0) == '$' && hash.get_char(1) == 'a' && hash.get_char(2) == 'r'
        && hash.get_char(3) == 'g' && hash.get_char(4) == 'o' && hash.get_char(5) == 'n'
        && hash.get_char(6) == '2';
    proof {
        let head = hash@.subrange(0, 7);
        if found {
            assert(head =~= argon2_prefix());
        } else {
            assert(head[0] == hash@[0] && head[1] == hash@[1] && head[2] == hash@[2] && head[3]
                == hash@[3] && head[4] == hash@[4] && head[5] == hash@[5] && head[6] == hash@[6]);
        }
    }
    found
}

/// Verifies `password` against `stored_hash`.
///
/// The hash decides the algorithm; `use_bcrypt`, which says what the service
/// hashes new passwords with, has no part in it. A hash that cannot be read
/// matches no password.
pub fn verify_hash(password: &str, stored_hash: &str, use_bcrypt: bool) -> (matches: bool)
    ensures
        matches == password_matches(password@, stored_hash@),
{
    let accepted = if has_argon2_format(stored_hash) {
        argon2_verify(stored_hash, password.as_bytes())
    } else {
        bcrypt_verify(password.as_bytes(), stored_hash)
    };
    match accepted {
        Some(found) => found,
        None => false,
    }
}

/// `e` is the failure that a refused hashing is reported as.
pub open spec fn is_hashing_failure(e: ServiceError) -> bool {
    e matches ServiceError::ProcessError(m) && m@ == "Password hashing failed"@
}

/// `hash` is what hashing `password` for storage may give: a hash, or
/// nothing where the hashing was refused.
///
/// With bcrypt the outcome is that of the service's work factor and some
/// salt of 16 bytes: it is always a hash, and bcrypt accepts it for the
/// password. With Argon2 the outcome is that of some salt of 32 bytes: it
/// is a hash exactly where the password is not too long, and Argon2 accepts
/// it for the password.
pub open spec fn is_hash_of(
    password: Seq<char>,
    use_bcrypt: bool,
    hash: Option<Seq<char>>,
) -> bool {
    if use_bcrypt {
        &&& exists|salt: Seq<u8>|
            salt.len() == BCRYPT_SALT_LENGTH && #[trigger] bcrypt_encoded(
                encode_utf8(password),
                BCRYPT_COST,
                salt,
            ) == hash
        &&& hash is Some
        &&& hash matches Some(h) ==> h.len() == 60 && h.subrange(0, 7) == bcrypt_head(BCRYPT_COST)
            && bcrypt_accepts(encode_utf8(password), h) == Some(true)
    } else {
        &&& exists|salt: Seq<u8>|
            salt.len() == SALT_LENGTH && #[trigger] argon2_encoded(encode_utf8(password), salt)
                == hash
        &&& hash is Some <==> encode_utf8(password).len() <= ARGON2_MAX_LENGTH
        &&& hash matches Some(h) ==> is_argon2_format(h) && argon2_accepts(
            h,
            encode_utf8(password),
        ) == Some(true)
    }
}

/// Hashing succeeds with bcrypt, and with Argon2 where the password is not
/// too long.
pub open spec fn hashing_succeeds(password: Seq<char>, use_bcrypt: bool) -> bool {
    use_bcrypt || encode_utf8(password).len() <= ARGON2_MAX_LENGTH
}

/// A hash made for storage names its algorithm, and verifies for the
/// password it was made from.
pub proof fn lemma_hash_verifies(password: Seq<char>, use_bcrypt: bool, hash: Seq<char>)
    requires
        is_hash_of(password, use_bcrypt, Some(hash)),
    ensures
        password_matches(password, hash),
        is_argon2_format(hash) == !use_bcrypt,
{
    if use_bcrypt {
        assert(hash.subrange(0, 7)[1] == '2');
        if is_argon2_format(hash) {
            assert(argon2_prefix()[1] == 'a');
        }
    }
}

/// Hashing is refused only with Argon2, for a password that is too long.
pub proof fn lemma_hashing_succeeds(password: Seq<char>, use_bcrypt: bool, hash: Option<Seq<char>>)
    requires
        is_hash_of(password, use_bcrypt, hash),
    ensures
        hash is Some <==> hashing_succeeds(password, use_bcrypt),
{
}

/// Hashes `password` with bcrypt, the service's work factor and the given
/// salt.
///
/// Succeeds exactly where the salt has 16 bytes.
pub fn bcrypt_password_hash(password: &str, salt: &[u8]) -> (hash: Result<String, ServiceError>)
    ensures
        match hash {
            Ok(h) => bcrypt_encoded(password.spec_bytes(), BCRYPT_COST, salt@) == Some(h@)
                && h@.len() == 60 && h@.subrange(0, 7) == bcrypt_head(BCRYPT_COST)
                && password_matches(password@, h@) && !is_argon2_format(h@),
            Err(e) => is_hashing_failure(e),
        },
        hash is Ok <==> salt@.len() == BCRYPT_SALT_LENGTH,
{
    if salt.len() != BCRYPT_SALT_LENGTH {
        return Err(ServiceError::ProcessError(String::from_str("Password hashing failed")));
    }
    match bcrypt_hash(password.as_bytes(), BCRYPT_COST, salt) {
        Some(h) => {
            proof {
                assert(h@.subrange(0, 7)[1] == '2');
                if is_argon2_format(h@) {
                    assert(argon2_prefix()[1] == 'a');
                }
            }
            Ok(h)
        },
        None => Err(ServiceError::ProcessError(String::from_str("Password hashing failed"))),
    }
}

/// Hashes `password` with Argon2 and the given salt.
///
/// Succeeds exactly where Argon2 takes the lengths.
pub fn argon2_password_hash(password: &str, salt: &[u8]) -> (hash: Result<String, ServiceError>)
    ensures
        match hash {
            Ok(h) => argon2_encoded(password.spec_bytes(), salt@) == Some(h@) && is_argon2_format(
                h@,
            ) && password_matches(password@, h@),
            Err(e) => argon2_encoded(password.spec_bytes(), salt@) is None && is_hashing_failure(e),
        },
        hash is Ok <==> argon2_takes(password.spec_bytes(), salt@),
{
    match argon2_hash(password.as_bytes(), salt) {
        Some(h) => Ok(h),
        None => Err(ServiceError::ProcessError(String::from_str("Password hashing failed"))),
    }
}

/// Hashes `password` for storage, with bcrypt if `use_bcrypt` and with
/// Argon2 otherwise, salted at random.
///
/// With bcrypt the hashing always succeeds; with Argon2 it succeeds exactly
/// where the password has no more than 2^32 - 1 bytes. Whatever salt was
/// drawn, the hash names its algorithm and `verify_hash` accepts `password`
/// for it, under either setting of the selector.
pub fn password_hash(password: &str, use_bcrypt: bool) -> (hash: Result<String, ServiceError>)
    ensures
        match hash {
            Ok(h) => is_hash_of(password@, use_bcrypt, Some(h@)),
            Err(e) => is_hash_of(password@, use_bcrypt, None) && is_hashing_failure(e),
        },
        hash matches Ok(h) ==> password_matches(password@, h@),
        hash matches Ok(h) ==> is_argon2_format(h@) == !use_bcrypt,
        hash is Ok <==> hashing_succeeds(password@, use_bcrypt),
{
    if use_bcrypt {
        let salt = random_bytes(BCRYPT_SALT_LENGTH);
        match bcrypt_password_hash(password, salt.as_slice()) {
            Ok(h) => {
                assert(bcrypt_encoded(encode_utf8(password@), BCRYPT_COST, salt@) == Some(h@));
                Ok(h)
            },
            Err(e) => Err(e),
        }
    } else {
        let salt = random_bytes(SALT_LENGTH);
        match argon2_password_hash(password, salt.as_slice()) {
            Ok(h) => {
                assert(argon2_encoded(encode_utf8(password@), salt@) == Some(h@));
                Ok(h)
            },
            Err(e) => {
                assert(argon2_encoded(encode_utf8(password@), salt@) == None::<Seq<char>>);
                Err(e)
            },
        }
    }
}

} // verus!
