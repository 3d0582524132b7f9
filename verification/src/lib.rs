//! A uniform interface to a fixed set of symmetric ciphers.
//!
//! [`Cipher`] is the closed set of supported suites: AES in CBC and CTR mode
//! with 128, 192 and 256 bit keys, triple DES in CBC mode, and a pass-through
//! `Null`. Each has a fixed key length, IV length, block size and name.
//! `encrypt` and `decrypt` hand the bytes to one of the transforms in
//! [`software`]; [`evp`] holds the same transforms computed by OpenSSL.

pub mod cipher;
pub mod error;
pub mod evp;
pub mod software;

pub use cipher::Cipher;
pub use error::{Error, Failure};
