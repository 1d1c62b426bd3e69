//! Tokens and passwords: random token generation, token hashing for
//! storage, password hashing and verification, and constant-time token
//! comparison.
use argon2::password_hash::{PasswordHash, PasswordHasher, PasswordVerifier, SaltString};
use rand::Rng;
use sha2::Digest;
use subtle::ConstantTimeEq;
use vstd::prelude::*;
use vstd::utf8::encode_utf8;
use crate::text::{push_char, owned};

verus! {

// ---------------------------------------------------------------------------
// Hexadecimal encoding
// ---------------------------------------------------------------------------

/// The lowercase hexadecimal digit of a value below 16.
pub open spec fn hex_digit(v: int) -> char {
    if v < 10 {
        crate::numbers::digit_char(v)
    } else if v == 10 {
        'a'
    } else if v == 11 {
        'b'
    } else if v == 12 {
        'c'
    } else if v == 13 {
        'd'
    } else if v == 14 {
        'e'
    } else {
        'f'
    }
}

/// The lowercase hexadecimal form of `bytes`, two digits per byte, high
/// digit first, as `hex::encode` gives it.
pub open spec fn hex(bytes: Seq<u8>) -> Seq<char>
    decreases bytes.len(),
{
    if bytes.len() == 0 {
        seq![]
    } else {
        hex(bytes.drop_last()) + seq![
            hex_digit(bytes.last() as int / 16),
            hex_digit(bytes.last() as int % 16),
        ]
    }
}

fn hex_char(v: u8) -> (c: char)
    requires
        v < 16,
    ensures
        c == hex_digit(v as int),
{
    if v < 10 {
        let d: u64 = v as u64;
        if d == 0 {
            '0'
        } else if d == 1 {
            '1'
        } else if d == 2 {
            '2'
        } else if d == 3 {
            '3'
        } else if d == 4 {
            '4'
        } else if d == 5 {
            '5'
        } else if d == 6 {
            '6'
        } else if d == 7 {
            '7'
        } else if d == 8 {
            '8'
        } else {
            '9'
        }
    } else if v == 10 {
        'a'
    } else if v == 11 {
        'b'
    } else if v == 12 {
        'c'
    } else if v == 13 {
        'd'
    } else if v == 14 {
        'e'
    } else {
        'f'
    }
}

/// Appends the lowercase hexadecimal form of `bytes`.
pub fn push_hex(s: &mut String, bytes: &[u8])
    ensures
        final(s)@ == old(s)@ + hex(bytes@),
{
    let mut i: usize = 0;
    while i < bytes.len()
        invariant
            i <= bytes.len(),
            s@ == old(s)@ + hex(bytes@.take(i as int)),
        decreases bytes.len() - i,
    {
        let b = bytes[i];
        push_char(s, hex_char(b / 16));
        push_char(s, hex_char(b % 16));
        proof {
            let t = bytes@.take(i + 1);
            assert(t.drop_last() =~= bytes@.take(i as int));
            assert(t.last() == b);
            assert(s@ =~= old(s)@ + hex(t));
        }
        i = i + 1;
    }
    assert(bytes@.take(bytes.len() as int) =~= bytes@);
}

/// The lowercase hexadecimal form of `bytes`.
pub fn hex_encode(bytes: &[u8]) -> (r: String)
    ensures
        r@ == hex(bytes@),
{
    let mut s = String::new();
    push_hex(&mut s, bytes);
    assert(Seq::<char>::empty() + hex(bytes@) =~= hex(bytes@));
    s
}

// ---------------------------------------------------------------------------
// Hashing and randomness
// ---------------------------------------------------------------------------

/// The SHA-256 digest of `data`.
pub uninterp spec fn sha256(data: Seq<u8>) -> Seq<u8>;

/// The SHA-256 digest of some bytes.
///
/// Trusted: calls `sha2::Sha256::digest`. The contract names the digest
/// and states its length, which the output type fixes at 32 bytes.
#[verifier::external_body]
pub(crate) fn sha256_digest(data: &[u8]) -> (r: Vec<u8>)
    ensures
        r@ == sha256(data@),
        r@.len() == 32,
{
    sha2::Sha256::digest(data).to_vec()
}

/// Thirty-two random bytes.
///
/// Trusted: calls `rand::random`. Nothing is claimed of the bytes: they
/// depend on the random generator.
#[verifier::external_body]
pub(crate) fn random_bytes_32() -> (r: [u8; 32]) {
    rand::random::<[u8; 32]>()
}

/// A random index below `n`.
///
/// Trusted: calls `rand::Rng::random_range` on the thread-local generator,
/// which (per its documentation) returns a value in the half-open range.
#[verifier::external_body]
pub(crate) fn random_below(n: usize) -> (r: usize)
    requires
        n > 0,
    ensures
        r < n,
{
    rand::rng().random_range(0..n)
}

/// The stored form of a token: the lowercase hexadecimal SHA-256 digest of
/// its UTF-8 bytes.
pub open spec fn spec_hash_token(token: Seq<char>) -> Seq<char> {
    hex(sha256(encode_utf8(token)))
}

/// Hash a token for storage.
pub fn hash_token(token: &str) -> (r: String)
    ensures
        r@ == spec_hash_token(token@),
{
    let digest = sha256_digest(token.as_bytes());
    hex_encode(digest.as_slice())
}

/// Generate a random token: 32 random bytes in lowercase hexadecimal.
pub fn generate_token() -> (r: String)
    ensures
        r@.len() == 64,
        exists|b: Seq<u8>| b.len() == 32 && r@ == hex(b),
{
    let bytes = random_bytes_32();
    let r = hex_encode(&bytes);
    proof {
        lemma_hex_len(bytes@);
    }
    r
}

/// The length of the hexadecimal form is twice that of the bytes.
pub proof fn lemma_hex_len(b: Seq<u8>)
    ensures
        hex(b).len() == 2 * b.len(),
    decreases b.len(),
{
    if b.len() > 0 {
        lemma_hex_len(b.drop_last());
    }
}

/// Generate a session token and return (raw_token, token_hash).
pub fn generate_session_token() -> (r: (String, String))
    ensures
        r.0@.len() == 64,
        exists|b: Seq<u8>| b.len() == 32 && r.0@ == hex(b),
        r.1@ == spec_hash_token(r.0@),
{
    let token = generate_token();
    let hash = hash_token(token.as_str());
    (token, hash)
}

/// Generate a user API token: `rvt_` and 32 random bytes in lowercase
/// hexadecimal.
pub fn generate_api_token() -> (r: String)
    ensures
        r@.len() == 68,
        exists|b: Seq<u8>| b.len() == 32 && r@ == "rvt_"@ + hex(b),
{
    let bytes = random_bytes_32();
    let mut s = owned("rvt_");
    push_hex(&mut s, &bytes);
    proof {
        lemma_hex_len(bytes@);
        reveal_strlit("rvt_");
    }
    s
}

// ---------------------------------------------------------------------------
// Passwords
// ---------------------------------------------------------------------------

/// Whether the Argon2 PHC string `hash` verifies `password`: it parses as a
/// password hash and recomputing it over the password with its salt and
/// parameters gives the same output.
pub uninterp spec fn argon2_verifies(password: Seq<char>, hash: Seq<char>) -> bool;

/// Hash a password using Argon2 with a fresh random salt.
///
/// Trusted: calls `argon2::Argon2::default().hash_password` with a salt
/// of 16 random bytes encoded by `SaltString::encode_b64`. The contract claims that a produced hash
/// verifies the same password, which the `password-hash` crate's
/// `verify_password` shows (it recomputes the hash with the stored salt and
/// parameters). Whether hashing fails is not claimed.
#[verifier::external_body]
pub fn hash_password(password: &str) -> (r: Result<String, String>)
    ensures
        r matches Ok(h) ==> argon2_verifies(password@, h@),
{
    let salt = SaltString::encode_b64(&rand::random::<[u8; 16]>()).map_err(|e| e.to_string())?;
    match argon2::Argon2::default().hash_password(password.as_bytes(), &salt) {
        Ok(h) => Ok(h.to_string()),
        Err(e) => Err(e.to_string()),
    }
}

/// Verify a password against a hash.
///
/// Trusted: parses the hash with `PasswordHash::new` (a hash that does not
/// parse verifies nothing) and calls `Argon2::verify_password`.
#[verifier::external_body]
pub fn verify_password(password: &str, hash: &str) -> (r: bool)
    ensures
        r == argon2_verifies(password@, hash@),
{
    match PasswordHash::new(hash) {
        Ok(h) => argon2::Argon2::default().verify_password(password.as_bytes(), &h).is_ok(),
        Err(_) => false,
    }
}

// ---------------------------------------------------------------------------
// Constant-time comparison
// ---------------------------------------------------------------------------

/// Whether two byte strings are equal, in time independent of their
/// contents when their lengths agree.
///
/// Trusted: calls `subtle::ConstantTimeEq::ct_eq` on the slices, which
/// answers 1 exactly when the lengths agree and every byte does.
#[verifier::external_body]
pub(crate) fn ct_eq_bytes(a: &[u8], b: &[u8]) -> (r: bool)
    ensures
        r == (a@ == b@),
{
    a.ct_eq(b).into()
}

/// Whether a presented token is the configured admin token, compared in
/// constant time.
pub fn is_admin_token(admin_token: &str, token: &str) -> (r: bool)
    ensures
        r == (admin_token@ == token@),
{
    let a = admin_token.as_bytes();
    let p = token.as_bytes();
    let r = a.len() == p.len() && ct_eq_bytes(a, p);
    proof {
        if encode_utf8(admin_token@) == encode_utf8(token@) {
            vstd::utf8::encode_utf8_decode_utf8(admin_token@);
            vstd::utf8::encode_utf8_decode_utf8(token@);
        }
    }
    r
}

} // verus!
