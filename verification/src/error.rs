//! The failures that naming a cipher or running a transform can end in.

use vstd::prelude::*;

verus! {

/// Why a transform did not produce bytes.
#[derive(Clone, Copy, Debug, PartialEq, Eq, Structural)]
pub enum Failure {
    /// The key or the IV does not have the length that the cipher fixes.
    KeyIvLength,
    /// The ciphertext is not a whole number of blocks, or what it decrypts to
    /// does not end in valid padding.
    Malformed,
    /// The source is too long for the output to be sized.
    SourceTooLong,
    /// The cryptographic library turned the input down.
    Rejected,
}

/// What a caller gets in place of a cipher or of transformed bytes.
#[derive(Clone, Copy, Debug, PartialEq, Eq, Structural)]
pub enum Error {
    /// The string names no supported cipher.
    UnsupportedCipher,
    /// A transform failed.
    CryptoFailure(Failure),
}

impl Error {
    /// True for the error that name lookup gives.
    pub fn is_unsupported_cipher(&self) -> (r: bool)
        ensures
            r == (*self == Error::UnsupportedCipher),
    {
        match self {
            Error::UnsupportedCipher => true,
            Error::CryptoFailure(_) => false,
        }
    }

    /// The reason of a failed transform, if this is one.
    pub fn failure(&self) -> (r: Option<Failure>)
        ensures
            r == match *self {
                Error::UnsupportedCipher => None::<Failure>,
                Error::CryptoFailure(f) => Some(f),
            },
    {
        match self {
            Error::UnsupportedCipher => None,
            Error::CryptoFailure(f) => Some(*f),
        }
    }
}

/// A result with its bytes taken as a sequence.
pub open spec fn outcome(r: Result<Vec<u8>, Error>) -> Result<Seq<u8>, Error> {
    match r {
        Ok(bytes) => Ok(bytes@),
        Err(e) => Err(e),
    }
}

} // verus!
