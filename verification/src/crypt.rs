//! An encrypted key together with the key material that opens it.

use crate::codec::{decrypt, encrypt_fixed_iv, sealed_fixed, text_outcome, unsealed, DecodeError, IvPolicy};
use crate::kdf::{derive_key, derived_key, DerivedKey};
use vstd::prelude::*;

verus! {

/// The encrypted key of a configuration and the key derived from the
/// password of the secure storage.
pub struct OSCrypt {
    /// The encrypted key, as hexadecimal envelope text.
    pub encrypted_key: String,
    /// The key derived from the password.
    pub aes_key: DerivedKey,
}

impl OSCrypt {
    /// Keeps `encrypted_key` and derives the key for `secure_password`.
    pub fn new_with_password(encrypted_key: String, secure_password: &str) -> (crypt: Self)
        ensures
            crypt.encrypted_key == encrypted_key,
            crypt.aes_key@ == derived_key(secure_password@),
    {
        let aes_key = derive_key(secure_password);
        OSCrypt { encrypted_key, aes_key }
    }

    /// Encrypts `plaintext` under the fixed initialization vector. The
    /// envelope opens to `plaintext` again under this key.
    pub fn encrypt_string(&self, plaintext: &str) -> (blob: String)
        ensures
            blob@ == sealed_fixed(plaintext@, self.aes_key@),
            unsealed(blob@, self.aes_key@, IvPolicy::Fixed) == Ok::<Seq<char>, DecodeError>(
                plaintext@,
            ),
    {
        encrypt_fixed_iv(plaintext, &self.aes_key)
    }

    /// Opens the envelope text `encrypted_hex` under the fixed
    /// initialization vector.
    pub fn decrypt_string(&self, encrypted_hex: &str) -> (r: Result<String, DecodeError>)
        ensures
            text_outcome(r) == unsealed(encrypted_hex@, self.aes_key@, IvPolicy::Fixed),
    {
        decrypt(encrypted_hex, &self.aes_key)
    }
}

} // verus!
