//! AES-128 in CBC mode with PKCS#7 padding, as the `aes` and `block-modes`
//! crates compute it.

use crate::params::{InitVector, BLOCK_SIZE, KEY_LENGTH};
use aes::Aes128;
use block_modes::block_padding::Pkcs7;
use block_modes::cipher::generic_array::GenericArray;
use block_modes::{BlockMode, BlockModeError, Cbc};
use vstd::prelude::*;

verus! {

/// The ciphertext of `plaintext` under a key and an initialization vector of
/// sixteen bytes each: the plaintext padded to whole blocks, each block
/// chained with the one before it and encrypted.
pub uninterp spec fn aes128_cbc_encrypted(key: Seq<u8>, iv: Seq<u8>, plaintext: Seq<u8>) -> Seq<u8>;

/// The plaintext of `ciphertext` under a key and an initialization vector of
/// sixteen bytes each, or `None` where the ciphertext is not whole blocks or
/// the padding found after decryption is malformed.
pub uninterp spec fn aes128_cbc_decrypted(key: Seq<u8>, iv: Seq<u8>, ciphertext: Seq<u8>) -> Option<
    Seq<u8>,
>;

/// Length of the ciphertext of `length` bytes of plaintext: padding adds one
/// to sixteen bytes, up to the next block boundary.
pub open spec fn padded_len(length: nat) -> nat {
    (length / (BLOCK_SIZE as nat) + 1) * (BLOCK_SIZE as nat)
}

/// Whether decryption undoes encryption for one plaintext: the ciphertext is
/// whole blocks and decrypts to the plaintext under the same key and
/// initialization vector.
pub open spec fn cipher_inverts(key: Seq<u8>, iv: Seq<u8>, plaintext: Seq<u8>) -> bool {
    let ciphertext = aes128_cbc_encrypted(key, iv, plaintext);
    &&& ciphertext.len() == padded_len(plaintext.len())
    &&& aes128_cbc_decrypted(key, iv, ciphertext) == Some(plaintext)
}

/// The error of `BlockMode::decrypt_vec`, carried through unread.
#[verifier::external_type_specification]
#[verifier::external_body]
pub struct ExBlockModeError(BlockModeError);

/// Makes a `Cbc<Aes128, Pkcs7>` with `BlockMode::new_fix` and calls
/// `BlockMode::encrypt_vec`. The ciphertext fills the blocks up to the next
/// boundary past the plaintext, and decrypts to the plaintext under the same
/// key and initialization vector.
#[verifier::external_body]
pub(crate) fn cbc_encrypt(key: &[u8; KEY_LENGTH], iv: &InitVector, plaintext: &[u8]) -> (ciphertext: Vec<
    u8,
>)
    ensures
        ciphertext@ == aes128_cbc_encrypted(key@, iv@, plaintext@),
        ciphertext@.len() == padded_len(plaintext@.len()),
        aes128_cbc_decrypted(key@, iv@, ciphertext@) == Some(plaintext@),
{
    let mode = Cbc::<Aes128, Pkcs7>::new_fix(&GenericArray::from(*key), &GenericArray::from(*iv));
    mode.encrypt_vec(plaintext)
}

/// Makes a `Cbc<Aes128, Pkcs7>` with `BlockMode::new_fix` and calls
/// `BlockMode::decrypt_vec`, which fails on a ciphertext that is not whole
/// blocks and on malformed padding.
#[verifier::external_body]
pub(crate) fn cbc_decrypt(key: &[u8; KEY_LENGTH], iv: &InitVector, ciphertext: &[u8]) -> (r: Result<
    Vec<u8>,
    BlockModeError,
>)
    ensures
        match r {
            Ok(plaintext) => aes128_cbc_decrypted(key@, iv@, ciphertext@) == Some(plaintext@),
            Err(_) => aes128_cbc_decrypted(key@, iv@, ciphertext@) is None,
        },
{
    let mode = Cbc::<Aes128, Pkcs7>::new_fix(&GenericArray::from(*key), &GenericArray::from(*iv));
    mode.decrypt_vec(ciphertext)
}

} // verus!
