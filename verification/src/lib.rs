//! Safe-storage encryption for small secrets kept at rest in a configuration
//! file: a password-derived AES-128 key and a versioned, hex-encoded envelope
//! around AES-128-CBC with PKCS#7 padding.
//!
//! - [`params`]: the fixed parameters of the scheme.
//! - [`kdf`]: from a password to a key.
//! - [`hexcode`] and [`cipher`]: hexadecimal text and the block cipher.
//! - [`codec`]: the envelope, written and opened.
//! - [`crypt`]: an encrypted key with the key that opens it.
//! - [`config`]: the encrypted key in a configuration document.
//! - [`resolver`] and [`keychain`]: from the secure storage to the plaintext.
//! - [`cli`]: the arguments of the command line.
//! - [`error`]: why resolving fails.

pub mod cipher;
pub mod cli;
pub mod codec;
pub mod config;
pub mod crypt;
pub mod error;
pub mod hexcode;
pub mod kdf;
pub mod keychain;
pub mod params;
pub mod resolver;
