//! Key derivation: PBKDF2 with HMAC-SHA1 under the fixed salt and rounds.

use crate::params::{ITERATIONS, KEY_LENGTH, SALT};
use vstd::prelude::*;
use vstd::utf8::encode_utf8;

verus! {

/// Symmetric key material: always exactly sixteen bytes.
pub type DerivedKey = [u8; KEY_LENGTH];

/// The first `length` bytes of PBKDF2 with HMAC-SHA1 as the pseudorandom
/// function, for a password, a salt and a number of rounds.
pub uninterp spec fn pbkdf2_hmac_sha1(
    password: Seq<u8>,
    salt: Seq<u8>,
    rounds: u32,
    length: nat,
) -> Seq<u8>;

/// Calls `pbkdf2::pbkdf2` with `Hmac<Sha1>` on a zeroed array of `N` bytes and
/// returns the array as the call filled it. The call numbers the blocks of
/// twenty bytes in a `u32`, which bounds `N`.
#[verifier::external_body]
fn pbkdf2_hmac_sha1_fill<const N: usize>(password: &[u8], salt: &[u8], rounds: u32) -> (out: [u8; N])
    requires
        N <= 20 * 0xffff_ffff,
    ensures
        out@ == pbkdf2_hmac_sha1(password@, salt@, rounds, N as nat),
{
    let mut out = [0u8; N];
    pbkdf2::pbkdf2::<hmac::Hmac<sha1::Sha1>>(password, salt, rounds, &mut out);
    out
}

/// The key that belongs to a password: PBKDF2-HMAC-SHA1 of its UTF-8 bytes
/// with the salt `saltysalt`, 1003 rounds and sixteen bytes of output.
pub open spec fn derived_key(password: Seq<char>) -> Seq<u8> {
    pbkdf2_hmac_sha1(encode_utf8(password), SALT@, ITERATIONS, KEY_LENGTH as nat)
}

/// Derives the key for `password`. Every password has a key, the empty one
/// too, and the key depends on nothing but the password.
pub fn derive_key(password: &str) -> (key: DerivedKey)
    ensures
        key@ == derived_key(password@),
        key@.len() == KEY_LENGTH,
{
    let salt = SALT;
    pbkdf2_hmac_sha1_fill::<KEY_LENGTH>(password.as_bytes(), salt.as_slice(), ITERATIONS)
}

/// Two keys derived from one password are the same sixteen bytes.
pub proof fn lemma_derive_key_deterministic(password: Seq<char>, first: DerivedKey, second: DerivedKey)
    requires
        first@ == derived_key(password),
        second@ == derived_key(password),
    ensures
        first == second,
        first@.len() == KEY_LENGTH,
{
}

} // verus!
