//! Transforms computed by OpenSSL, through its cipher contexts.
//!
//! A context is made for the cipher and the direction, takes the whole source
//! in one update and is then finalized; what the two steps wrote, one after
//! the other, is the result. The output buffer has room for one block more
//! than the source, which is what padding can add.
//!
//! What OpenSSL computes is not written out here: the bytes that an update
//! and a finalization write are known by names (`evp_updated`,
//! `evp_finalized`). The contracts say which inputs this module turns down
//! itself, before OpenSSL sees them, and that an output is what OpenSSL wrote
//! for the whole source, in the direction asked for, under the key and the IV
//! given. Whether OpenSSL takes an input at all is for OpenSSL to say.

use crate::cipher::Cipher;
use crate::error::{outcome, Error, Failure};
use openssl::error::ErrorStack;
use openssl::symm::{Crypter, Mode};
use vstd::pervasive::unreached;
use vstd::prelude::*;
use vstd::slice::slice_to_vec;

verus! {

/// The direction of a context of OpenSSL.
#[verifier::external_type_specification]
pub struct ExMode(Mode);

/// A cipher context of OpenSSL.
#[verifier::external_type_specification]
#[verifier::external_body]
pub struct ExCrypter(Crypter);

/// The errors that OpenSSL has queued.
#[verifier::external_type_specification]
#[verifier::external_body]
pub struct ExErrorStack(ErrorStack);

/// The suite that a context was made for.
pub uninterp spec fn crypter_suite(c: Crypter) -> Cipher;

/// The direction, the key and the IV that a context was made with.
pub uninterp spec fn crypter_made_with(c: Crypter) -> (Mode, Seq<u8>, Seq<u8>);

/// The bytes that a context has taken in so far, update by update.
pub uninterp spec fn crypter_fed(c: Crypter) -> Seq<u8>;

/// The bytes that an update writes when a context for `kind`, made with
/// `mode`, `key` and `iv`, has taken in `fed` and is given `input`.
pub uninterp spec fn evp_updated(
    kind: Cipher,
    mode: Mode,
    key: Seq<u8>,
    iv: Seq<u8>,
    fed: Seq<u8>,
    input: Seq<u8>,
) -> Seq<u8>;

/// The bytes that finalizing writes when a context for `kind`, made with
/// `mode`, `key` and `iv`, has taken in `fed`.
pub uninterp spec fn evp_finalized(
    kind: Cipher,
    mode: Mode,
    key: Seq<u8>,
    iv: Seq<u8>,
    fed: Seq<u8>,
) -> Seq<u8>;

/// What OpenSSL writes for a source that is fed whole, in one update: the
/// bytes of the update and, behind them, those of the finalization.
pub open spec fn evp_output(kind: Cipher, mode: Mode, key: Seq<u8>, iv: Seq<u8>, src: Seq<u8>) -> Seq<u8> {
    evp_updated(kind, mode, key, iv, Seq::<u8>::empty(), src) + evp_finalized(
        kind,
        mode,
        key,
        iv,
        src,
    )
}

/// The block size that OpenSSL reports for a suite: that of the block cipher
/// where blocks are chained, one byte where a keystream is added.
pub open spec fn evp_block(kind: Cipher) -> usize {
    if kind.is_cbc() {
        kind.spec_block_size()
    } else if kind == Cipher::Null {
        0
    } else {
        1
    }
}

/// `Crypter::new` of `openssl`, on `Cipher::aes_128_cbc()` and with an IV. The key of
/// 16 and the IV of 16 bytes are those of AES-128 in CBC mode, so that none
/// of the assertions that the call makes on them can fail. The context, where
/// one is returned, is for that suite, was made with the direction, the key
/// and the IV that the call was given, and has taken in nothing yet.
#[verifier::external_body]
fn aes_128_cbc_crypter(mode: Mode, key: &[u8], iv: &[u8]) -> (r: Result<Crypter, ErrorStack>)
    requires
        key@.len() == 16,
        iv@.len() == 16,
    ensures
        r matches Ok(c) ==> crypter_suite(c) == Cipher::Aes128_Cbc,
        r matches Ok(c) ==> crypter_made_with(c) == (mode, key@, iv@),
        r matches Ok(c) ==> crypter_fed(c) == Seq::<u8>::empty(),
{
    Crypter::new(openssl::symm::Cipher::aes_128_cbc(), mode, key, Some(iv))
}

/// `Cipher::block_size` of `openssl` on `Cipher::aes_128_cbc()`:
/// the block of the cipher.
#[verifier::external_body]
fn aes_128_cbc_block_size() -> (n: usize)
    ensures
        n == 16,
{
    openssl::symm::Cipher::aes_128_cbc().block_size()
}

/// `Crypter::new` of `openssl`, on `Cipher::aes_192_cbc()` and with an IV. The key of
/// 24 and the IV of 16 bytes are those of AES-192 in CBC mode, so that none
/// of the assertions that the call makes on them can fail. The context, where
/// one is returned, is for that suite, was made with the direction, the key
/// and the IV that the call was given, and has taken in nothing yet.
#[verifier::external_body]
fn aes_192_cbc_crypter(mode: Mode, key: &[u8], iv: &[u8]) -> (r: Result<Crypter, ErrorStack>)
    requires
        key@.len() == 24,
        iv@.len() == 16,
    ensures
        r matches Ok(c) ==> crypter_suite(c) == Cipher::Aes192_Cbc,
        r matches Ok(c) ==> crypter_made_with(c) == (mode, key@, iv@),
        r matches Ok(c) ==> crypter_fed(c) == Seq::<u8>::empty(),
{
    Crypter::new(openssl::symm::Cipher::aes_192_cbc(), mode, key, Some(iv))
}

/// `Cipher::block_size` of `openssl` on `Cipher::aes_192_cbc()`:
/// the block of the cipher.
#[verifier::external_body]
fn aes_192_cbc_block_size() -> (n: usize)
    ensures
        n == 16,
{
    openssl::symm::Cipher::aes_192_cbc().block_size()
}

/// `Crypter::new` of `openssl`, on `Cipher::aes_256_cbc()` and with an IV. The key of
/// 32 and the IV of 16 bytes are those of AES-256 in CBC mode, so that none
/// of the assertions that the call makes on them can fail. The context, where
/// one is returned, is for that suite, was made with the direction, the key
/// and the IV that the call was given, and has taken in nothing yet.
#[verifier::external_body]
fn aes_256_cbc_crypter(mode: Mode, key: &[u8], iv: &[u8]) -> (r: Result<Crypter, ErrorStack>)
    requires
        key@.len() == 32,
        iv@.len() == 16,
    ensures
        r matches Ok(c) ==> crypter_suite(c) == Cipher::Aes256_Cbc,
        r matches Ok(c) ==> crypter_made_with(c) == (mode, key@, iv@),
        r matches Ok(c) ==> crypter_fed(c) == Seq::<u8>::empty(),
{
    Crypter::new(openssl::symm::Cipher::aes_256_cbc(), mode, key, Some(iv))
}

/// `Cipher::block_size` of `openssl` on `Cipher::aes_256_cbc()`:
/// the block of the cipher.
#[verifier::external_body]
fn aes_256_cbc_block_size() -> (n: usize)
    ensures
        n == 16,
{
    openssl::symm::Cipher::aes_256_cbc().block_size()
}

/// `Crypter::new` of `openssl`, on `Cipher::aes_128_ctr()` and with an IV. The key of
/// 16 and the IV of 16 bytes are those of AES-128 in CTR mode, so that none
/// of the assertions that the call makes on them can fail. The context, where
/// one is returned, is for that suite, was made with the direction, the key
/// and the IV that the call was given, and has taken in nothing yet.
#[verifier::external_body]
fn aes_128_ctr_crypter(mode: Mode, key: &[u8], iv: &[u8]) -> (r: Result<Crypter, ErrorStack>)
    requires
        key@.len() == 16,
        iv@.len() == 16,
    ensures
        r matches Ok(c) ==> crypter_suite(c) == Cipher::Aes128_Ctr,
        r matches Ok(c) ==> crypter_made_with(c) == (mode, key@, iv@),
        r matches Ok(c) ==> crypter_fed(c) == Seq::<u8>::empty(),
{
    Crypter::new(openssl::symm::Cipher::aes_128_ctr(), mode, key, Some(iv))
}

/// `Cipher::block_size` of `openssl` on `Cipher::aes_128_ctr()`:
/// one byte, as OpenSSL reports for every stream cipher.
#[verifier::external_body]
fn aes_128_ctr_block_size() -> (n: usize)
    ensures
        n == 1,
{
    openssl::symm::Cipher::aes_128_ctr().block_size()
}

/// `Crypter::new` of `openssl`, on `Cipher::aes_192_ctr()` and with an IV. The key of
/// 24 and the IV of 16 bytes are those of AES-192 in CTR mode, so that none
/// of the assertions that the call makes on them can fail. The context, where
/// one is returned, is for that suite, was made with the direction, the key
/// and the IV that the call was given, and has taken in nothing yet.
#[verifier::external_body]
fn aes_192_ctr_crypter(mode: Mode, key: &[u8], iv: &[u8]) -> (r: Result<Crypter, ErrorStack>)
    requires
        key@.len() == 24,
        iv@.len() == 16,
    ensures
        r matches Ok(c) ==> crypter_suite(c) == Cipher::Aes192_Ctr,
        r matches Ok(c) ==> crypter_made_with(c) == (mode, key@, iv@),
        r matches Ok(c) ==> crypter_fed(c) == Seq::<u8>::empty(),
{
    Crypter::new(openssl::symm::Cipher::aes_192_ctr(), mode, key, Some(iv))
}

/// `Cipher::block_size` of `openssl` on `Cipher::aes_192_ctr()`:
/// one byte, as OpenSSL reports for every stream cipher.
#[verifier::external_body]
fn aes_192_ctr_block_size() -> (n: usize)
    ensures
        n == 1,
{
    openssl::symm::Cipher::aes_192_ctr().block_size()
}

/// `Crypter::new` of `openssl`, on `Cipher::aes_256_ctr()` and with an IV. The key of
/// 32 and the IV of 16 bytes are those of AES-256 in CTR mode, so that none
/// of the assertions that the call makes on them can fail. The context, where
/// one is returned, is for that suite, was made with the direction, the key
/// and the IV that the call was given, and has taken in nothing yet.
#[verifier::external_body]
fn aes_256_ctr_crypter(mode: Mode, key: &[u8], iv: &[u8]) -> (r: Result<Crypter, ErrorStack>)
    requires
        key@.len() == 32,
        iv@.len() == 16,
    ensures
        r matches Ok(c) ==> crypter_suite(c) == Cipher::Aes256_Ctr,
        r matches Ok(c) ==> crypter_made_with(c) == (mode, key@, iv@),
        r matches Ok(c) ==> crypter_fed(c) == Seq::<u8>::empty(),
{
    Crypter::new(openssl::symm::Cipher::aes_256_ctr(), mode, key, Some(iv))
}

/// `Cipher::block_size` of `openssl` on `Cipher::aes_256_ctr()`:
/// one byte, as OpenSSL reports for every stream cipher.
#[verifier::external_body]
fn aes_256_ctr_block_size() -> (n: usize)
    ensures
        n == 1,
{
    openssl::symm::Cipher::aes_256_ctr().block_size()
}

/// `Crypter::new` of `openssl`, on `Cipher::des_ede3_cbc()` and with an IV. The key of
/// 24 and the IV of 8 bytes are those of triple DES in CBC mode, so that none
/// of the assertions that the call makes on them can fail. The context, where
/// one is returned, is for that suite, was made with the direction, the key
/// and the IV that the call was given, and has taken in nothing yet.
#[verifier::external_body]
fn des_ede3_cbc_crypter(mode: Mode, key: &[u8], iv: &[u8]) -> (r: Result<Crypter, ErrorStack>)
    requires
        key@.len() == 24,
        iv@.len() == 8,
    ensures
        r matches Ok(c) ==> crypter_suite(c) == Cipher::TDes_Cbc,
        r matches Ok(c) ==> crypter_made_with(c) == (mode, key@, iv@),
        r matches Ok(c) ==> crypter_fed(c) == Seq::<u8>::empty(),
{
    Crypter::new(openssl::symm::Cipher::des_ede3_cbc(), mode, key, Some(iv))
}

/// `Cipher::block_size` of `openssl` on `Cipher::des_ede3_cbc()`:
/// the block of the cipher.
#[verifier::external_body]
fn des_ede3_cbc_block_size() -> (n: usize)
    ensures
        n == 8,
{
    openssl::symm::Cipher::des_ede3_cbc().block_size()
}

/// `Crypter::update` of `openssl`, writing to the start of `output`. The call
/// panics unless the lengths of input and output fit in a C `int` and the
/// output has room for the input and one block. It leaves the context with
/// its cipher, direction, key and IV, and with the input taken in where it
/// succeeds. It returns how many bytes it wrote: they stand at the start of
/// the output, whose length stays.
#[verifier::external_body]
fn crypter_update(
    crypt: &mut Crypter,
    input: &[u8],
    output: &mut Vec<u8>,
) -> (r: Result<usize, ErrorStack>)
    requires
        crypter_suite(*old(crypt)) != Cipher::Null,
        old(output)@.len() <= i32::MAX,
        old(output)@.len() >= input@.len() + evp_block(crypter_suite(*old(crypt))),
    ensures
        crypter_suite(*final(crypt)) == crypter_suite(*old(crypt)),
        crypter_made_with(*final(crypt)) == crypter_made_with(*old(crypt)),
        r is Ok ==> crypter_fed(*final(crypt)) == crypter_fed(*old(crypt)) + input@,
        final(output)@.len() == old(output)@.len(),
        r matches Ok(n) ==> n <= old(output)@.len(),
        r matches Ok(n) ==> final(output)@.subrange(0, n as int) == evp_updated(
            crypter_suite(*old(crypt)),
            crypter_made_with(*old(crypt)).0,
            crypter_made_with(*old(crypt)).1,
            crypter_made_with(*old(crypt)).2,
            crypter_fed(*old(crypt)),
            input@,
        ),
{
    crypt.update(input, output)
}

/// `Crypter::finalize` of `openssl`, writing to `output` from index `at` on.
/// For a block cipher the call panics unless a block fits there. It returns
/// how many bytes it wrote: they stand in the output from `at` on. What
/// stands before `at` stays, and so does the length.
#[verifier::external_body]
fn crypter_finalize(
    crypt: &mut Crypter,
    output: &mut Vec<u8>,
    at: usize,
) -> (r: Result<usize, ErrorStack>)
    requires
        crypter_suite(*old(crypt)) != Cipher::Null,
        at <= old(output)@.len(),
        evp_block(crypter_suite(*old(crypt))) > 1 ==> old(output)@.len() - at >= evp_block(
            crypter_suite(*old(crypt)),
        ),
    ensures
        final(output)@.len() == old(output)@.len(),
        final(output)@.subrange(0, at as int) == old(output)@.subrange(0, at as int),
        r matches Ok(m) ==> at + m <= old(output)@.len(),
        r matches Ok(m) ==> final(output)@.subrange(at as int, at + m) == evp_finalized(
            crypter_suite(*old(crypt)),
            crypter_made_with(*old(crypt)).0,
            crypter_made_with(*old(crypt)).1,
            crypter_made_with(*old(crypt)).2,
            crypter_fed(*old(crypt)),
        ),
{
    crypt.finalize(&mut output[at..])
}

/// The block size that OpenSSL reports for `kind`; none for `Null`, which
/// OpenSSL never sees.
pub fn reported_block_size(kind: Cipher) -> (n: usize)
    ensures
        n == evp_block(kind),
{
    match kind {
        Cipher::Aes128_Cbc => aes_128_cbc_block_size(),
        Cipher::Aes192_Cbc => aes_192_cbc_block_size(),
        Cipher::Aes256_Cbc => aes_256_cbc_block_size(),
        Cipher::Aes128_Ctr => aes_128_ctr_block_size(),
        Cipher::Aes192_Ctr => aes_192_ctr_block_size(),
        Cipher::Aes256_Ctr => aes_256_ctr_block_size(),
        Cipher::TDes_Cbc => des_ede3_cbc_block_size(),
        Cipher::Null => 0,
    }
}

/// Makes a context of OpenSSL for `kind` in the direction `mode`, under `key`
/// and `iv`. Whether a context comes back is for OpenSSL to say; one that
/// does is for that suite and that direction, was made with that key and
/// that IV, and has taken in nothing yet.
fn new_crypter(kind: Cipher, mode: Mode, key: &[u8], iv: &[u8]) -> (r: Result<Crypter, ErrorStack>)
    requires
        kind != Cipher::Null,
        key@.len() == kind.spec_key_len(),
        iv@.len() == kind.spec_iv_len(),
    ensures
        r matches Ok(c) ==> crypter_suite(c) == kind,
        r matches Ok(c) ==> crypter_made_with(c) == (mode, key@, iv@),
        r matches Ok(c) ==> crypter_fed(c) == Seq::<u8>::empty(),
{
    match kind {
        Cipher::Aes128_Cbc => aes_128_cbc_crypter(mode, key, iv),
        Cipher::Aes192_Cbc => aes_192_cbc_crypter(mode, key, iv),
        Cipher::Aes256_Cbc => aes_256_cbc_crypter(mode, key, iv),
        Cipher::Aes128_Ctr => aes_128_ctr_crypter(mode, key, iv),
        Cipher::Aes192_Ctr => aes_192_ctr_crypter(mode, key, iv),
        Cipher::Aes256_Ctr => aes_256_ctr_crypter(mode, key, iv),
        Cipher::TDes_Cbc => des_ede3_cbc_crypter(mode, key, iv),
        Cipher::Null => unreached(),
    }
}

/// The failure with which this module turns an input down before OpenSSL
/// sees it: a key or an IV that is not of the suite's length, or a source
/// that with one more block is longer than a C `int` can say. Nothing is
/// turned down for `Null`, which is no work of OpenSSL's.
pub open spec fn refusal(kind: Cipher, src_len: nat, key_len: nat, iv_len: nat) -> Option<Failure> {
    if kind == Cipher::Null {
        None
    } else if !kind.takes(key_len, iv_len) {
        Some(Failure::KeyIvLength)
    } else if src_len + evp_block(kind) > i32::MAX {
        Some(Failure::SourceTooLong)
    } else {
        None
    }
}

/// Tells with which failure, if any, this module turns an input of these
/// lengths down before OpenSSL sees it.
pub fn refuses(kind: Cipher, src_len: usize, key_len: usize, iv_len: usize) -> (r: Option<Failure>)
    ensures
        r == refusal(kind, src_len as nat, key_len as nat, iv_len as nat),
{
    if kind.is_null() {
        None
    } else if key_len != kind.key_len() || iv_len != kind.iv_len() {
        Some(Failure::KeyIvLength)
    } else if src_len > i32::MAX as usize - reported_block_size(kind) {
        Some(Failure::SourceTooLong)
    } else {
        None
    }
}

/// What a transform of `src` by this module gives. The inputs that the
/// module refuses fail as [`refusal`] says. Of the others OpenSSL decides
/// which it takes: an output is what OpenSSL wrote, in the direction `mode`
/// and under `key` and `iv`, for the whole of `src`, and is at most one block
/// longer than `src`; any failure is a rejection by OpenSSL.
pub open spec fn transformed(
    kind: Cipher,
    mode: Mode,
    src: Seq<u8>,
    key: Seq<u8>,
    iv: Seq<u8>,
    res: Result<Vec<u8>, Error>,
) -> bool {
    match refusal(kind, src.len(), key.len(), iv.len()) {
        Some(f) => res == Err::<Vec<u8>, Error>(Error::CryptoFailure(f)),
        None => match res {
            Ok(out) => out@ == evp_output(kind, mode, key, iv, src) && out@.len() <= src.len()
                + evp_block(kind),
            Err(e) => e == Error::CryptoFailure(Failure::Rejected),
        },
    }
}

/// Whether `written` bytes at the start of a buffer of `buf_len` bytes leave
/// what finalizing needs behind them: a whole block for a block cipher,
/// nothing for a stream.
pub open spec fn leaves_room(buf_len: nat, block: nat, written: nat) -> bool {
    written <= buf_len && (block > 1 ==> buf_len - written >= block)
}

/// Takes what making the context answered: the context, or a rejection where
/// OpenSSL gave none.
pub fn made_or_rejected(made: Result<Crypter, ErrorStack>) -> (res: Result<Crypter, Error>)
    ensures
        res == match made {
            Ok(c) => Ok::<Crypter, Error>(c),
            Err(_) => Err::<Crypter, Error>(Error::CryptoFailure(Failure::Rejected)),
        },
{
    match made {
        Ok(c) => Ok(c),
        Err(_) => Err(Error::CryptoFailure(Failure::Rejected)),
    }
}

/// Takes what the update answered. The count of bytes written is passed on
/// where it leaves room to finalize; an error of OpenSSL, or a count that
/// leaves no room, is a rejection.
pub fn after_update(
    updated: Result<usize, ErrorStack>,
    buf_len: usize,
    block: usize,
) -> (res: Result<usize, Error>)
    ensures
        res == match updated {
            Ok(n) => if leaves_room(buf_len as nat, block as nat, n as nat) {
                Ok::<usize, Error>(n)
            } else {
                Err::<usize, Error>(Error::CryptoFailure(Failure::Rejected))
            },
            Err(_) => Err::<usize, Error>(Error::CryptoFailure(Failure::Rejected)),
        },
{
    match updated {
        Ok(n) => {
            if n <= buf_len && (block <= 1 || buf_len - n >= block) {
                Ok(n)
            } else {
                Err(Error::CryptoFailure(Failure::Rejected))
            }
        },
        Err(_) => Err(Error::CryptoFailure(Failure::Rejected)),
    }
}

/// Takes what finalizing answered. The result is the start of the buffer, as
/// far as the update (`written` bytes) and the finalization behind it wrote;
/// an error of OpenSSL, or a count that runs past the buffer, is a rejection.
pub fn after_finalize(
    finalized: Result<usize, ErrorStack>,
    buf: Vec<u8>,
    written: usize,
) -> (res: Result<Vec<u8>, Error>)
    ensures
        outcome(res) == match finalized {
            Ok(more) => if written + more <= buf@.len() {
                Ok::<Seq<u8>, Error>(buf@.subrange(0, written + more))
            } else {
                Err::<Seq<u8>, Error>(Error::CryptoFailure(Failure::Rejected))
            },
            Err(_) => Err::<Seq<u8>, Error>(Error::CryptoFailure(Failure::Rejected)),
        },
{
    let mut buf = buf;
    match finalized {
        Ok(more) => {
            if written <= buf.len() && more <= buf.len() - written {
                buf.truncate(written + more);
                Ok(buf)
            } else {
                Err(Error::CryptoFailure(Failure::Rejected))
            }
        },
        Err(_) => Err(Error::CryptoFailure(Failure::Rejected)),
    }
}

/// Runs `src` through a context of OpenSSL for `kind` in the direction `mode`:
/// the whole source goes in by one update, and what the update and the
/// finalization wrote, one behind the other, comes back.
fn transform(
    kind: Cipher,
    mode: Mode,
    src: &[u8],
    key: &[u8],
    iv: &[u8],
) -> (res: Result<Vec<u8>, Error>)
    requires
        kind != Cipher::Null,
    ensures
        transformed(kind, mode, src@, key@, iv@, res),
{
    if let Some(failure) = refuses(kind, src.len(), key.len(), iv.len()) {
        return Err(Error::CryptoFailure(failure));
    }
    let block: usize = reported_block_size(kind);
    let mut crypt = match made_or_rejected(new_crypter(kind, mode, key, iv)) {
        Ok(c) => c,
        Err(e) => {
            return Err(e);
        },
    };
    let mut buf = vec![0u8; src.len() + block];
    let updated = crypter_update(&mut crypt, src, &mut buf);
    let written: usize = match after_update(updated, buf.len(), block) {
        Ok(n) => n,
        Err(e) => {
            return Err(e);
        },
    };
    let ghost first = buf@.subrange(0, written as int);
    assert(first == evp_updated(kind, mode, key@, iv@, Seq::<u8>::empty(), src@));
    assert(crypter_fed(crypt) == src@) by {
        assert(Seq::<u8>::empty() + src@ =~= src@);
    }
    let finalized = crypter_finalize(&mut crypt, &mut buf, written);
    proof {
        if let Ok(more) = finalized {
            assert(buf@.subrange(0, written + more) =~= first + buf@.subrange(
                written as int,
                written + more,
            ));
        }
    }
    after_finalize(finalized, buf, written)
}

/// Encrypts `src` with the suite `kind`.
fn openssl_encrypt(kind: Cipher, src: &[u8], key: &[u8], iv: &[u8]) -> (res: Result<Vec<u8>, Error>)
    requires
        kind != Cipher::Null,
    ensures
        transformed(kind, Mode::Encrypt, src@, key@, iv@, res),
{
    transform(kind, Mode::Encrypt, src, key, iv)
}

/// Decrypts `src` with the suite `kind`.
fn openssl_decrypt(kind: Cipher, src: &[u8], key: &[u8], iv: &[u8]) -> (res: Result<Vec<u8>, Error>)
    requires
        kind != Cipher::Null,
    ensures
        transformed(kind, Mode::Decrypt, src@, key@, iv@, res),
{
    transform(kind, Mode::Decrypt, src, key, iv)
}

/// Encrypts `src` with AES-128 in CBC mode.
pub fn aes128cbc_encrypt(src: &[u8], key: &[u8], iv: &[u8]) -> (res: Result<Vec<u8>, Error>)
    ensures
        transformed(Cipher::Aes128_Cbc, Mode::Encrypt, src@, key@, iv@, res),
{
    openssl_encrypt(Cipher::Aes128_Cbc, src, key, iv)
}

/// Decrypts `src` with AES-128 in CBC mode.
pub fn aes128cbc_decrypt(src: &[u8], key: &[u8], iv: &[u8]) -> (res: Result<Vec<u8>, Error>)
    ensures
        transformed(Cipher::Aes128_Cbc, Mode::Decrypt, src@, key@, iv@, res),
{
    openssl_decrypt(Cipher::Aes128_Cbc, src, key, iv)
}

/// Encrypts `src` with AES-192 in CBC mode.
pub fn aes192cbc_encrypt(src: &[u8], key: &[u8], iv: &[u8]) -> (res: Result<Vec<u8>, Error>)
    ensures
        transformed(Cipher::Aes192_Cbc, Mode::Encrypt, src@, key@, iv@, res),
{
    openssl_encrypt(Cipher::Aes192_Cbc, src, key, iv)
}

/// Decrypts `src` with AES-192 in CBC mode.
pub fn aes192cbc_decrypt(src: &[u8], key: &[u8], iv: &[u8]) -> (res: Result<Vec<u8>, Error>)
    ensures
        transformed(Cipher::Aes192_Cbc, Mode::Decrypt, src@, key@, iv@, res),
{
    openssl_decrypt(Cipher::Aes192_Cbc, src, key, iv)
}

/// Encrypts `src` with AES-256 in CBC mode.
pub fn aes256cbc_encrypt(src: &[u8], key: &[u8], iv: &[u8]) -> (res: Result<Vec<u8>, Error>)
    ensures
        transformed(Cipher::Aes256_Cbc, Mode::Encrypt, src@, key@, iv@, res),
{
    openssl_encrypt(Cipher::Aes256_Cbc, src, key, iv)
}

/// Decrypts `src` with AES-256 in CBC mode.
pub fn aes256cbc_decrypt(src: &[u8], key: &[u8], iv: &[u8]) -> (res: Result<Vec<u8>, Error>)
    ensures
        transformed(Cipher::Aes256_Cbc, Mode::Decrypt, src@, key@, iv@, res),
{
    openssl_decrypt(Cipher::Aes256_Cbc, src, key, iv)
}

/// Encrypts `src` with triple DES in CBC mode.
pub fn tdescbc_encrypt(src: &[u8], key: &[u8], iv: &[u8]) -> (res: Result<Vec<u8>, Error>)
    ensures
        transformed(Cipher::TDes_Cbc, Mode::Encrypt, src@, key@, iv@, res),
{
    openssl_encrypt(Cipher::TDes_Cbc, src, key, iv)
}

/// Decrypts `src` with triple DES in CBC mode.
pub fn tdescbc_decrypt(src: &[u8], key: &[u8], iv: &[u8]) -> (res: Result<Vec<u8>, Error>)
    ensures
        transformed(Cipher::TDes_Cbc, Mode::Decrypt, src@, key@, iv@, res),
{
    openssl_decrypt(Cipher::TDes_Cbc, src, key, iv)
}

/// Encrypts `src` with AES-128 in CTR mode.
pub fn aes128ctr_encrypt(src: &[u8], key: &[u8], iv: &[u8]) -> (res: Result<Vec<u8>, Error>)
    ensures
        transformed(Cipher::Aes128_Ctr, Mode::Encrypt, src@, key@, iv@, res),
{
    openssl_encrypt(Cipher::Aes128_Ctr, src, key, iv)
}

/// Decrypts `src` with AES-128 in CTR mode.
pub fn aes128ctr_decrypt(src: &[u8], key: &[u8], iv: &[u8]) -> (res: Result<Vec<u8>, Error>)
    ensures
        transformed(Cipher::Aes128_Ctr, Mode::Decrypt, src@, key@, iv@, res),
{
    openssl_decrypt(Cipher::Aes128_Ctr, src, key, iv)
}

/// Encrypts `src` with AES-192 in CTR mode.
pub fn aes192ctr_encrypt(src: &[u8], key: &[u8], iv: &[u8]) -> (res: Result<Vec<u8>, Error>)
    ensures
        transformed(Cipher::Aes192_Ctr, Mode::Encrypt, src@, key@, iv@, res),
{
    openssl_encrypt(Cipher::Aes192_Ctr, src, key, iv)
}

/// Decrypts `src` with AES-192 in CTR mode.
pub fn aes192ctr_decrypt(src: &[u8], key: &[u8], iv: &[u8]) -> (res: Result<Vec<u8>, Error>)
    ensures
        transformed(Cipher::Aes192_Ctr, Mode::Decrypt, src@, key@, iv@, res),
{
    openssl_decrypt(Cipher::Aes192_Ctr, src, key, iv)
}

/// Encrypts `src` with AES-256 in CTR mode.
pub fn aes256ctr_encrypt(src: &[u8], key: &[u8], iv: &[u8]) -> (res: Result<Vec<u8>, Error>)
    ensures
        transformed(Cipher::Aes256_Ctr, Mode::Encrypt, src@, key@, iv@, res),
{
    openssl_encrypt(Cipher::Aes256_Ctr, src, key, iv)
}

/// Decrypts `src` with AES-256 in CTR mode.
pub fn aes256ctr_decrypt(src: &[u8], key: &[u8], iv: &[u8]) -> (res: Result<Vec<u8>, Error>)
    ensures
        transformed(Cipher::Aes256_Ctr, Mode::Decrypt, src@, key@, iv@, res),
{
    openssl_decrypt(Cipher::Aes256_Ctr, src, key, iv)
}

/// Encrypts `src` with `kind` by OpenSSL. `Null` returns the source as it is.
pub fn encrypt(kind: Cipher, src: &[u8], key: &[u8], iv: &[u8]) -> (res: Result<Vec<u8>, Error>)
    ensures
        kind == Cipher::Null ==> outcome(res) == Ok::<Seq<u8>, Error>(src@),
        kind != Cipher::Null ==> transformed(kind, Mode::Encrypt, src@, key@, iv@, res),
{
    match kind {
        Cipher::Aes128_Cbc => aes128cbc_encrypt(src, key, iv),
        Cipher::Aes192_Cbc => aes192cbc_encrypt(src, key, iv),
        Cipher::Aes256_Cbc => aes256cbc_encrypt(src, key, iv),
        Cipher::Aes128_Ctr => aes128ctr_encrypt(src, key, iv),
        Cipher::Aes192_Ctr => aes192ctr_encrypt(src, key, iv),
        Cipher::Aes256_Ctr => aes256ctr_encrypt(src, key, iv),
        Cipher::TDes_Cbc => tdescbc_encrypt(src, key, iv),
        Cipher::Null => Ok(slice_to_vec(src)),
    }
}

/// Decrypts `src` with `kind` by OpenSSL. `Null` returns the source as it is.
pub fn decrypt(kind: Cipher, src: &[u8], key: &[u8], iv: &[u8]) -> (res: Result<Vec<u8>, Error>)
    ensures
        kind == Cipher::Null ==> outcome(res) == Ok::<Seq<u8>, Error>(src@),
        kind != Cipher::Null ==> transformed(kind, Mode::Decrypt, src@, key@, iv@, res),
{
    match kind {
        Cipher::Aes128_Cbc => aes128cbc_decrypt(src, key, iv),
        Cipher::Aes192_Cbc => aes192cbc_decrypt(src, key, iv),
        Cipher::Aes256_Cbc => aes256cbc_decrypt(src, key, iv),
        Cipher::Aes128_Ctr => aes128ctr_decrypt(src, key, iv),
        Cipher::Aes192_Ctr => aes192ctr_decrypt(src, key, iv),
        Cipher::Aes256_Ctr => aes256ctr_decrypt(src, key, iv),
        Cipher::TDes_Cbc => tdescbc_decrypt(src, key, iv),
        Cipher::Null => Ok(slice_to_vec(src)),
    }
}

} // verus!
