//! The fixed parameters of the scheme. Envelopes written elsewhere open only
//! under exactly these values, so none of them can be configured.

use vstd::prelude::*;

verus! {

/// Length of a derived key in bytes.
pub const KEY_LENGTH: usize = 16;

/// Length of a cipher block, and of an initialization vector, in bytes.
pub const BLOCK_SIZE: usize = 16;

/// Number of rounds of the key derivation.
pub const ITERATIONS: u32 = 1003;

/// Salt of the key derivation: the ASCII text `saltysalt`.
pub const SALT: [u8; 9] = [0x73, 0x61, 0x6c, 0x74, 0x79, 0x73, 0x61, 0x6c, 0x74];

/// Length of the version tag in bytes.
pub const TAG_LENGTH: usize = 3;

/// Tag at the head of every envelope: the ASCII text `v10`.
pub const VERSION_TAG: [u8; TAG_LENGTH] = [0x76, 0x31, 0x30];

/// An initialization vector: one block.
pub type InitVector = [u8; BLOCK_SIZE];

/// The byte that fills the fixed initialization vector: an ASCII space.
pub const IV_FILL: u8 = 0x20;

/// The fixed initialization vector: sixteen ASCII spaces.
pub open spec fn fixed_iv() -> Seq<u8> {
    Seq::new(BLOCK_SIZE as nat, |i: int| IV_FILL)
}

/// The fixed initialization vector as a value.
pub fn fixed_iv_bytes() -> (iv: InitVector)
    ensures
        iv@ == fixed_iv(),
{
    [IV_FILL; BLOCK_SIZE]
}

} // verus!
