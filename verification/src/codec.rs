//! The versioned envelope: a tag, an optional inline initialization vector
//! and the ciphertext, written as hexadecimal text.

use crate::cipher::{
    aes128_cbc_decrypted, aes128_cbc_encrypted, cbc_decrypt, cbc_encrypt, cipher_inverts,
    padded_len,
};
use crate::hexcode::{decode_hex, encode_hex, hex_decoded, hex_encoded, is_hex, lemma_hex_round_trip};
use crate::kdf::DerivedKey;
use crate::params::{fixed_iv, fixed_iv_bytes, InitVector, BLOCK_SIZE, TAG_LENGTH, VERSION_TAG};
use block_modes::BlockModeError;
use std::string::FromUtf8Error;
use vstd::prelude::*;
use vstd::slice::slice_subrange;
use vstd::utf8::{
    decode_utf8, decode_utf8_encode_utf8, encode_utf8, encode_utf8_decode_utf8, encode_utf8_valid_utf8,
    valid_utf8,
};

verus! {

/// Where the initialization vector of an envelope comes from.
#[derive(Clone, Copy, Debug, PartialEq, Eq, Structural)]
pub enum IvPolicy {
    /// Sixteen ASCII spaces, never stored: the framing of envelopes written
    /// by other applications of the scheme.
    Fixed,
    /// Sixteen fresh random bytes, stored between the tag and the ciphertext.
    Random,
}

/// Why an envelope did not open.
#[derive(Clone, Copy, Debug, PartialEq, Eq, Structural)]
pub enum DecodeError {
    /// The text is not an even number of hexadecimal digits.
    Malformed,
    /// The bytes do not begin with the version tag.
    UnsupportedVersion,
    /// The ciphertext is not whole blocks, or its padding is invalid once
    /// decrypted: a wrong key, or damaged data.
    CipherFailure,
    /// The decrypted bytes are not UTF-8.
    InvalidUtf8,
}

impl Default for IvPolicy {
    /// The fixed initialization vector: the framing that opens envelopes
    /// written by other applications of the scheme.
    fn default() -> (policy: Self)
        ensures
            policy == IvPolicy::Fixed,
    {
        IvPolicy::Fixed
    }
}

impl DecodeError {
    /// What the error says, in words.
    pub open spec fn message_text(self) -> Seq<char> {
        match self {
            DecodeError::Malformed => "Encrypted key is not hexadecimal text"@,
            DecodeError::UnsupportedVersion => "Invalid encryption version prefix"@,
            DecodeError::CipherFailure => "Decryption failed: wrong password or damaged data"@,
            DecodeError::InvalidUtf8 => "Decrypted data is not UTF-8 text"@,
        }
    }

    /// A message for the user.
    pub fn message(&self) -> (text: String)
        ensures
            text@ == self.message_text(),
    {
        match self {
            DecodeError::Malformed => String::from_str("Encrypted key is not hexadecimal text"),
            DecodeError::UnsupportedVersion => String::from_str("Invalid encryption version prefix"),
            DecodeError::CipherFailure => String::from_str(
                "Decryption failed: wrong password or damaged data",
            ),
            DecodeError::InvalidUtf8 => String::from_str("Decrypted data is not UTF-8 text"),
        }
    }
}

/// An outcome of opening an envelope, with the text taken by its view.
pub open spec fn text_outcome(r: Result<String, DecodeError>) -> Result<Seq<char>, DecodeError> {
    match r {
        Ok(text) => Ok(text@),
        Err(e) => Err(e),
    }
}

/// Whether `bytes` begin with the version tag.
pub open spec fn has_version_tag(bytes: Seq<u8>) -> bool {
    &&& bytes.len() >= TAG_LENGTH
    &&& bytes.subrange(0, TAG_LENGTH as int) == VERSION_TAG@
}

/// The envelope text of `plaintext` under the fixed initialization vector.
pub open spec fn sealed_fixed(plaintext: Seq<char>, key: Seq<u8>) -> Seq<char> {
    hex_encoded(VERSION_TAG@ + aes128_cbc_encrypted(key, fixed_iv(), encode_utf8(plaintext)))
}

/// The envelope text of `plaintext` with the initialization vector `iv`
/// stored inline.
pub open spec fn sealed_inline(plaintext: Seq<char>, key: Seq<u8>, iv: Seq<u8>) -> Seq<char> {
    hex_encoded(VERSION_TAG@ + iv + aes128_cbc_encrypted(key, iv, encode_utf8(plaintext)))
}

/// The text that decrypted bytes stand for.
pub open spec fn recovered(decrypted: Option<Seq<u8>>) -> Result<Seq<char>, DecodeError> {
    match decrypted {
        None => Err(DecodeError::CipherFailure),
        Some(plain) => if valid_utf8(plain) {
            Ok(decode_utf8(plain))
        } else {
            Err(DecodeError::InvalidUtf8)
        },
    }
}

/// What a ciphertext opens to. One that is not whole blocks is refused
/// before any decryption.
pub open spec fn deciphered(key: Seq<u8>, iv: Seq<u8>, ciphertext: Seq<u8>) -> Result<
    Seq<char>,
    DecodeError,
> {
    if ciphertext.len() % (BLOCK_SIZE as nat) != 0 {
        Err(DecodeError::CipherFailure)
    } else {
        recovered(aes128_cbc_decrypted(key, iv, ciphertext))
    }
}

/// What the bytes of an envelope open to under a framing. Bytes without the
/// tag are refused whatever follows; under the inline framing, so are bytes
/// too short to hold an initialization vector.
pub open spec fn opened(envelope: Seq<u8>, key: Seq<u8>, policy: IvPolicy) -> Result<
    Seq<char>,
    DecodeError,
> {
    if !has_version_tag(envelope) {
        Err(DecodeError::UnsupportedVersion)
    } else {
        let body = envelope.skip(TAG_LENGTH as int);
        match policy {
            IvPolicy::Fixed => deciphered(key, fixed_iv(), body),
            IvPolicy::Random => if body.len() < BLOCK_SIZE {
                Err(DecodeError::CipherFailure)
            } else {
                deciphered(key, body.take(BLOCK_SIZE as int), body.skip(BLOCK_SIZE as int))
            },
        }
    }
}

/// What an envelope text opens to under a framing.
pub open spec fn unsealed(blob: Seq<char>, key: Seq<u8>, policy: IvPolicy) -> Result<
    Seq<char>,
    DecodeError,
> {
    let text = encode_utf8(blob);
    if !is_hex(text) {
        Err(DecodeError::Malformed)
    } else {
        opened(hex_decoded(text), key, policy)
    }
}

/// The error of `String::from_utf8`, carried through unread.
#[verifier::external_type_specification]
#[verifier::external_body]
pub struct ExFromUtf8Error(FromUtf8Error);

/// Calls `String::from_utf8`, which succeeds exactly on valid UTF-8 and then
/// returns the text whose bytes are the given ones.
#[verifier::external_body]
fn text_from_utf8(bytes: Vec<u8>) -> (r: Result<String, FromUtf8Error>)
    ensures
        r is Ok <==> valid_utf8(bytes@),
        r matches Ok(text) ==> encode_utf8(text@) == bytes@,
{
    String::from_utf8(bytes)
}

/// Calls `rand::random` for sixteen bytes from the thread's generator.
#[verifier::external_body]
fn fresh_iv() -> InitVector {
    rand::random()
}

/// Whether `bytes` begin with the version tag.
pub fn starts_with_tag(bytes: &[u8]) -> (r: bool)
    ensures
        r == has_version_tag(bytes@),
{
    let tag = VERSION_TAG;
    if bytes.len() < TAG_LENGTH {
        return false;
    }
    let r = bytes[0] == tag[0] && bytes[1] == tag[1] && bytes[2] == tag[2];
    proof {
        if r {
            assert(bytes@.subrange(0, TAG_LENGTH as int) =~= VERSION_TAG@);
        }
    }
    r
}

/// Turns the outcome of a decryption into text: a failure of the cipher is
/// reported as such, and so are bytes that are not UTF-8.
pub fn recover_text(decrypted: Result<Vec<u8>, BlockModeError>) -> (r: Result<String, DecodeError>)
    ensures
        text_outcome(r) == recovered(
            match decrypted {
                Ok(plain) => Some(plain@),
                Err(_) => None,
            },
        ),
{
    match decrypted {
        Err(_) => Err(DecodeError::CipherFailure),
        Ok(plain) => match text_from_utf8(plain) {
            Ok(text) => {
                proof {
                    encode_utf8_decode_utf8(text@);
                }
                Ok(text)
            },
            Err(_) => Err(DecodeError::InvalidUtf8),
        },
    }
}

/// Decrypts a ciphertext and reads it as text.
pub fn decipher(key: &DerivedKey, iv: &InitVector, ciphertext: &[u8]) -> (r: Result<
    String,
    DecodeError,
>)
    ensures
        text_outcome(r) == deciphered(key@, iv@, ciphertext@),
{
    if ciphertext.len() % BLOCK_SIZE != 0 {
        return Err(DecodeError::CipherFailure);
    }
    recover_text(cbc_decrypt(key, iv, ciphertext))
}

/// The sixteen bytes of a slice as an initialization vector.
fn iv_of(bytes: &[u8]) -> (iv: InitVector)
    requires
        bytes@.len() == BLOCK_SIZE,
    ensures
        iv@ == bytes@,
{
    let mut iv = [0u8; BLOCK_SIZE];
    let mut i: usize = 0;
    while i < BLOCK_SIZE
        invariant
            i <= BLOCK_SIZE,
            bytes@.len() == BLOCK_SIZE,
            forall|j: int| 0 <= j < i ==> iv@[j] == bytes@[j],
        decreases BLOCK_SIZE - i,
    {
        iv[i] = bytes[i];
        i += 1;
    }
    iv
}

/// Opens the bytes of an envelope under a framing: checks the tag, finds the
/// initialization vector, decrypts, and reads the result as text.
pub fn open_envelope(envelope: &[u8], key: &DerivedKey, policy: IvPolicy) -> (r: Result<
    String,
    DecodeError,
>)
    ensures
        text_outcome(r) == opened(envelope@, key@, policy),
{
    if !starts_with_tag(envelope) {
        return Err(DecodeError::UnsupportedVersion);
    }
    let body = slice_subrange(envelope, TAG_LENGTH, envelope.len());
    match policy {
        IvPolicy::Fixed => {
            let iv = fixed_iv_bytes();
            decipher(key, &iv, body)
        },
        IvPolicy::Random => {
            if body.len() < BLOCK_SIZE {
                return Err(DecodeError::CipherFailure);
            }
            let iv = iv_of(slice_subrange(body, 0, BLOCK_SIZE));
            let ciphertext = slice_subrange(body, BLOCK_SIZE, body.len());
            decipher(key, &iv, ciphertext)
        },
    }
}

/// Opens an envelope text under a framing.
pub fn decrypt_framed(blob: &str, key: &DerivedKey, policy: IvPolicy) -> (r: Result<
    String,
    DecodeError,
>)
    ensures
        text_outcome(r) == unsealed(blob@, key@, policy),
{
    match decode_hex(blob.as_bytes()) {
        Err(_) => Err(DecodeError::Malformed),
        Ok(envelope) => open_envelope(envelope.as_slice(), key, policy),
    }
}

/// Opens an envelope text under the fixed initialization vector, the framing
/// of envelopes written by other applications of the scheme.
pub fn decrypt(blob: &str, key: &DerivedKey) -> (r: Result<String, DecodeError>)
    ensures
        text_outcome(r) == unsealed(blob@, key@, IvPolicy::Fixed),
{
    decrypt_framed(blob, key, IvPolicy::Fixed)
}

/// The bytes of an envelope: the tag, the initialization vector where it is
/// stored inline, and the ciphertext.
fn frame(inline_iv: Option<&InitVector>, ciphertext: &[u8]) -> (envelope: Vec<u8>)
    ensures
        envelope@ == VERSION_TAG@ + match inline_iv {
            Some(iv) => iv@,
            None => Seq::<u8>::empty(),
        } + ciphertext@,
{
    let tag = VERSION_TAG;
    let mut envelope: Vec<u8> = Vec::new();
    envelope.extend_from_slice(tag.as_slice());
    if let Some(iv) = inline_iv {
        envelope.extend_from_slice(iv.as_slice());
    }
    envelope.extend_from_slice(ciphertext);
    envelope
}

/// An envelope under the fixed initialization vector opens to its plaintext
/// wherever the cipher undoes its own encryption.
pub proof fn lemma_fixed_round_trip(plaintext: Seq<char>, key: Seq<u8>)
    requires
        cipher_inverts(key, fixed_iv(), encode_utf8(plaintext)),
    ensures
        unsealed(sealed_fixed(plaintext, key), key, IvPolicy::Fixed) == Ok::<
            Seq<char>,
            DecodeError,
        >(plaintext),
{
    let ciphertext = aes128_cbc_encrypted(key, fixed_iv(), encode_utf8(plaintext));
    let envelope = VERSION_TAG@ + ciphertext;
    lemma_hex_round_trip(envelope);
    assert(envelope.subrange(0, TAG_LENGTH as int) =~= VERSION_TAG@);
    assert(envelope.skip(TAG_LENGTH as int) =~= ciphertext);
    encode_utf8_valid_utf8(plaintext);
    encode_utf8_decode_utf8(plaintext);
}

/// An envelope with an inline initialization vector opens to its plaintext
/// wherever the cipher undoes its own encryption.
pub proof fn lemma_inline_round_trip(plaintext: Seq<char>, key: Seq<u8>, iv: Seq<u8>)
    requires
        iv.len() == BLOCK_SIZE,
        cipher_inverts(key, iv, encode_utf8(plaintext)),
    ensures
        unsealed(sealed_inline(plaintext, key, iv), key, IvPolicy::Random) == Ok::<
            Seq<char>,
            DecodeError,
        >(plaintext),
{
    let ciphertext = aes128_cbc_encrypted(key, iv, encode_utf8(plaintext));
    let envelope = VERSION_TAG@ + iv + ciphertext;
    lemma_hex_round_trip(envelope);
    assert(envelope.subrange(0, TAG_LENGTH as int) =~= VERSION_TAG@);
    let body = envelope.skip(TAG_LENGTH as int);
    assert(body.take(BLOCK_SIZE as int) =~= iv);
    assert(body.skip(BLOCK_SIZE as int) =~= ciphertext);
    encode_utf8_valid_utf8(plaintext);
    encode_utf8_decode_utf8(plaintext);
}

/// Encrypts `plaintext` under the fixed initialization vector and writes the
/// envelope as hexadecimal text.
pub fn encrypt_fixed_iv(plaintext: &str, key: &DerivedKey) -> (blob: String)
    ensures
        blob@ == sealed_fixed(plaintext@, key@),
        blob@.len() == 2 * (TAG_LENGTH + padded_len(encode_utf8(plaintext@).len())),
        unsealed(blob@, key@, IvPolicy::Fixed) == Ok::<Seq<char>, DecodeError>(plaintext@),
{
    let iv = fixed_iv_bytes();
    let ciphertext = cbc_encrypt(key, &iv, plaintext.as_bytes());
    let envelope = frame(None, ciphertext.as_slice());
    proof {
        lemma_fixed_round_trip(plaintext@, key@);
    }
    encode_hex(envelope.as_slice())
}

/// Encrypts `plaintext` under the initialization vector `iv`, stores the
/// vector between the tag and the ciphertext, and writes the envelope as
/// hexadecimal text.
pub fn encrypt_inline_iv(plaintext: &str, key: &DerivedKey, iv: &InitVector) -> (blob: String)
    ensures
        blob@ == sealed_inline(plaintext@, key@, iv@),
        blob@.len() == 2 * (TAG_LENGTH + BLOCK_SIZE + padded_len(encode_utf8(plaintext@).len())),
        unsealed(blob@, key@, IvPolicy::Random) == Ok::<Seq<char>, DecodeError>(plaintext@),
{
    let ciphertext = cbc_encrypt(key, iv, plaintext.as_bytes());
    let envelope = frame(Some(iv), ciphertext.as_slice());
    proof {
        lemma_inline_round_trip(plaintext@, key@, iv@);
    }
    encode_hex(envelope.as_slice())
}

/// Encrypts `plaintext` into an envelope text. Under the random policy a
/// fresh initialization vector is drawn for the call. Either way the
/// envelope opens to `plaintext` under the same key and policy.
pub fn encrypt(plaintext: &str, key: &DerivedKey, policy: IvPolicy) -> (blob: String)
    ensures
        match policy {
            IvPolicy::Fixed => blob@ == sealed_fixed(plaintext@, key@),
            IvPolicy::Random => exists|iv: Seq<u8>|
                iv.len() == BLOCK_SIZE && blob@ == #[trigger] sealed_inline(plaintext@, key@, iv),
        },
        unsealed(blob@, key@, policy) == Ok::<Seq<char>, DecodeError>(plaintext@),
{
    match policy {
        IvPolicy::Fixed => encrypt_fixed_iv(plaintext, key),
        IvPolicy::Random => {
            let iv = fresh_iv();
            encrypt_inline_iv(plaintext, key, &iv)
        },
    }
}

/// The initialization vector in force for a tagged envelope.
pub open spec fn envelope_iv(envelope: Seq<u8>, policy: IvPolicy) -> Seq<u8> {
    match policy {
        IvPolicy::Fixed => fixed_iv(),
        IvPolicy::Random => envelope.subrange(TAG_LENGTH as int, TAG_LENGTH + BLOCK_SIZE),
    }
}

/// The ciphertext of a tagged envelope.
pub open spec fn envelope_ciphertext(envelope: Seq<u8>, policy: IvPolicy) -> Seq<u8> {
    match policy {
        IvPolicy::Fixed => envelope.skip(TAG_LENGTH as int),
        IvPolicy::Random => envelope.skip(TAG_LENGTH + BLOCK_SIZE),
    }
}

/// A text whose bytes do not begin with the version tag is refused as an
/// unsupported version, whatever the key, the framing and the bytes that
/// follow.
pub proof fn lemma_untagged_rejected(blob: Seq<char>, key: Seq<u8>, policy: IvPolicy)
    requires
        is_hex(encode_utf8(blob)),
        !has_version_tag(hex_decoded(encode_utf8(blob))),
    ensures
        unsealed(blob, key, policy) == Err::<Seq<char>, DecodeError>(
            DecodeError::UnsupportedVersion,
        ),
{
}

/// A ciphertext that is not whole blocks is a cipher failure under every key
/// and initialization vector.
pub proof fn lemma_misaligned_rejected(key: Seq<u8>, iv: Seq<u8>, ciphertext: Seq<u8>)
    requires
        ciphertext.len() % (BLOCK_SIZE as nat) != 0,
    ensures
        deciphered(key, iv, ciphertext) == Err::<Seq<char>, DecodeError>(
            DecodeError::CipherFailure,
        ),
{
}

/// No failure is masked. A tagged envelope opens only where the cipher
/// accepts the ciphertext under this very key, and then to the text whose
/// UTF-8 bytes the cipher returned; where the cipher fails the outcome is a
/// cipher failure, and a tagged envelope fails in no other way than by the
/// cipher or by bytes that are not text.
pub proof fn lemma_failures_surface(envelope: Seq<u8>, key: Seq<u8>, policy: IvPolicy)
    requires
        has_version_tag(envelope),
    ensures
        match opened(envelope, key, policy) {
            Ok(text) => {
                &&& envelope_ciphertext(envelope, policy).len() % (BLOCK_SIZE as nat) == 0
                &&& aes128_cbc_decrypted(
                    key,
                    envelope_iv(envelope, policy),
                    envelope_ciphertext(envelope, policy),
                ) == Some(encode_utf8(text))
            },
            Err(e) => e == DecodeError::CipherFailure || e == DecodeError::InvalidUtf8,
        },
        aes128_cbc_decrypted(
            key,
            envelope_iv(envelope, policy),
            envelope_ciphertext(envelope, policy),
        ) is None ==> opened(envelope, key, policy) == Err::<Seq<char>, DecodeError>(
            DecodeError::CipherFailure,
        ),
{
    let body = envelope.skip(TAG_LENGTH as int);
    if policy == IvPolicy::Random && body.len() >= BLOCK_SIZE {
        assert(body.take(BLOCK_SIZE as int) =~= envelope_iv(envelope, policy));
        assert(body.skip(BLOCK_SIZE as int) =~= envelope_ciphertext(envelope, policy));
    }
    if let Ok(text) = opened(envelope, key, policy) {
        let plain = aes128_cbc_decrypted(
            key,
            envelope_iv(envelope, policy),
            envelope_ciphertext(envelope, policy),
        )->0;
        decode_utf8_encode_utf8(plain);
    }
}

} // verus!
