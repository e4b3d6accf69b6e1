//! Password hashing and verification for the administration password.
//!
//! A password is hashed with PBKDF2-HMAC-SHA256 under a fixed salt and
//! round count, and the derived key is rendered as lowercase hexadecimal.
//! Verification recomputes the hash and compares in constant time.

use vstd::prelude::*;
use vstd::string::StringSliceAdditionalSpecFns;
use vstd::utf8::encode_utf8;

use sha2::Digest;

use crate::text::lemma_encode_utf8_injective;

verus! {

/// Key-derivation rounds applied to a password.
pub const ITERATIONS: u32 = 100_000;

/// Salt for password hashing; unique per installation in production.
pub open spec fn spec_salt() -> Seq<char> {
    "netwatch-agent-salt"@
}

/// The salt as text.
fn salt() -> (r: &'static str)
    ensures
        r@ == spec_salt(),
{
    "netwatch-agent-salt"
}

/// Derived-key length in bytes.
pub const HASH_LENGTH: usize = 32;

/// The key that PBKDF2 with HMAC-SHA256 derives: a function of the
/// password, the salt, the round count, and the requested length alone.
pub uninterp spec fn pbkdf2_sha256_of(
    password: Seq<u8>,
    salt: Seq<u8>,
    rounds: u32,
    out_len: nat,
) -> Seq<u8>;

/// Relies on pbkdf2::pbkdf2_hmac with SHA-256: it fills a buffer of the
/// requested length with the derived key, a deterministic function of the
/// password, salt, rounds and length; with an HMAC PRF every password
/// length is accepted.
#[verifier::external_body]
fn derive_key(password: &[u8], salt: &[u8], rounds: u32, out_len: usize) -> (r: Vec<u8>)
    ensures
        r@ == pbkdf2_sha256_of(password@, salt@, rounds, out_len as nat),
        r@.len() == out_len,
{
    let mut out = vec![0u8; out_len];
    pbkdf2::pbkdf2_hmac::<sha2::Sha256>(password, salt, rounds, &mut out);
    out
}

/// The character for one hexadecimal digit, lowercase.
pub open spec fn hex_digit(n: int) -> char {
    if n < 10 {
        (48 + n) as char
    } else {
        (87 + n) as char
    }
}

/// Bytes rendered as lowercase hexadecimal, two digits per byte, high
/// nibble first.
pub open spec fn hex_of(b: Seq<u8>) -> Seq<char> {
    Seq::new(
        2 * b.len(),
        |i: int|
            if i % 2 == 0 {
                hex_digit(b[i / 2] as int / 16)
            } else {
                hex_digit(b[i / 2] as int % 16)
            },
    )
}

/// Relies on hex::encode: each byte becomes two digits from
/// `0123456789abcdef`, high nibble first.
#[verifier::external_body]
fn hex_encode(data: &[u8]) -> (r: String)
    ensures
        r@ == hex_of(data@),
{
    hex::encode(data)
}

/// The SHA-256 digest of the input bytes: a function of them alone.
pub uninterp spec fn sha256_of(data: Seq<u8>) -> Seq<u8>;

/// Relies on sha2::Sha256 through the digest traits: the digest depends on
/// the input bytes alone and is 32 bytes long.
#[verifier::external_body]
fn sha256_digest(data: &[u8]) -> (r: Vec<u8>)
    ensures
        r@ == sha256_of(data@),
        r@.len() == 32,
{
    let mut hasher = sha2::Sha256::new();
    hasher.update(data);
    hasher.finalize().to_vec()
}

/// What hashing a password yields.
pub open spec fn spec_password_hash(password: Seq<char>) -> Seq<char> {
    hex_of(
        pbkdf2_sha256_of(
            encode_utf8(password),
            encode_utf8(spec_salt()),
            ITERATIONS,
            HASH_LENGTH as nat,
        ),
    )
}

/// Hashes a password with PBKDF2-SHA256 and renders the key as lowercase
/// hexadecimal: always twice `HASH_LENGTH` digits.
pub fn hash_password(password: &str) -> (r: String)
    ensures
        r@ == spec_password_hash(password@),
        r@.len() == 2 * HASH_LENGTH,
{
    let key = derive_key(password.as_bytes(), salt().as_bytes(), ITERATIONS, HASH_LENGTH);
    hex_encode(key.as_slice())
}

/// Compares two strings in constant time over their lengths, to keep
/// timing from leaking where they first differ.
pub fn constant_time_compare(a: &str, b: &str) -> (r: bool)
    ensures
        r == (a@ == b@),
{
    proof {
        lemma_encode_utf8_injective(a@, b@);
    }
    let ab = a.as_bytes();
    let bb = b.as_bytes();
    if ab.len() != bb.len() {
        proof {
            assert(a.spec_bytes() != b.spec_bytes());
        }
        return false;
    }
    let n = ab.len();
    let mut acc: u8 = 0;
    let mut i: usize = 0;
    while i < n
        invariant
            i <= n,
            n == ab@.len() == bb@.len(),
            ab@ == a.spec_bytes(),
            bb@ == b.spec_bytes(),
            (acc == 0) <==> (forall|j: int| 0 <= j < i ==> ab@[j] == bb@[j]),
        decreases n - i,
    {
        let x = ab[i];
        let y = bb[i];
        let d = x ^ y;
        proof {
            assert((x ^ y == 0) <==> x == y) by (bit_vector);
            assert(((acc | d) == 0) <==> (acc == 0 && d == 0)) by (bit_vector);
        }
        acc = acc | d;
        i += 1;
    }
    if acc == 0 {
        proof {
            assert(ab@ =~= bb@);
        }
        true
    } else {
        proof {
            assert(a.spec_bytes() != b.spec_bytes()) by {
                if a.spec_bytes() == b.spec_bytes() {
                    assert(forall|j: int| 0 <= j < n ==> ab@[j] == bb@[j]);
                }
            }
        }
        false
    }
}

/// Verifies a password against a stored hash: true exactly when hashing
/// the password yields the hash.
pub fn verify_password(password: &str, hash: &str) -> (r: bool)
    ensures
        r == (spec_password_hash(password@) == hash@),
{
    let computed_hash = hash_password(password);
    constant_time_compare(computed_hash.as_str(), hash)
}

/// A SHA-256 digest of a string, as lowercase hexadecimal: always 64
/// digits.
pub fn sha256_hash(input: &str) -> (r: String)
    ensures
        r@ == hex_of(sha256_of(encode_utf8(input@))),
        r@.len() == 64,
{
    let digest = sha256_digest(input.as_bytes());
    hex_encode(digest.as_slice())
}

} // verus!
