//! Transforms computed in software, by the RustCrypto block ciphers.
//!
//! The CBC functions pad the source by PKCS#7 before chaining and strip the
//! padding after decrypting. The CTR functions add a keystream to the source,
//! so that encrypting and decrypting are one operation; the counter is the
//! second half of the IV and wraps round within those eight bytes. The
//! ciphers themselves are not written out here: each transform is known by a
//! name (`aes128_cbc_encrypted`, ...), and the contracts say how the
//! functions of this module relate to those names.

use crate::error::{outcome, Error, Failure};
use aes::{Aes128, Aes192, Aes256};
use aes_ctr::cipher::stream::{InvalidKeyNonceLength, NewStreamCipher, SyncStreamCipher};
use aes_ctr::{Aes128Ctr, Aes192Ctr, Aes256Ctr};
use block_modes::block_padding::Pkcs7;
use block_modes::{BlockMode, BlockModeError, Cbc, InvalidKeyIvLength};
use des::TdesEde3;
use vstd::arithmetic::div_mod::{lemma_fundamental_div_mod, lemma_mod_multiples_basic};
use vstd::prelude::*;
use vstd::slice::slice_to_vec;

verus! {

/// The error of `block_modes` for a key or IV of the wrong length.
#[verifier::external_type_specification]
#[verifier::external_body]
pub struct ExInvalidKeyIvLength(InvalidKeyIvLength);

/// The error of `block_modes` for data that cannot be decrypted.
#[verifier::external_type_specification]
#[verifier::external_body]
pub struct ExBlockModeError(BlockModeError);

/// The error of `cipher` for a key or nonce of the wrong length.
#[verifier::external_type_specification]
#[verifier::external_body]
pub struct ExInvalidKeyNonceLength(InvalidKeyNonceLength);

/// Length of `n` bytes once padded by PKCS#7 to blocks of `block` bytes: the
/// next multiple of `block` that is greater than `n`.
pub open spec fn padded_len(n: nat, block: nat) -> nat {
    (n - n % block + block) as nat
}

/// Padding adds at least one byte and at most a block, and what it gives is
/// a whole number of blocks; a source that already is one grows by a block.
pub proof fn lemma_padding_adds_bytes(n: nat, block: nat)
    requires
        block > 0,
    ensures
        n < padded_len(n, block) <= n + block,
        padded_len(n, block) % block == 0,
        n % block == 0 ==> padded_len(n, block) == n + block,
{
    lemma_fundamental_div_mod(n as int, block as int);
    lemma_mod_multiples_basic(n as int / block as int + 1, block as int);
    assert(block * (n as int / block as int) + block == (n as int / block as int + 1) * block)
        by (nonlinear_arith);
}

/// Whether a source of `n` bytes leaves room for its padding of up to `block`
/// bytes in a buffer that can be allocated.
pub open spec fn paddable(n: nat, block: nat) -> bool {
    n + block <= isize::MAX
}

/// What CBC encryption gives, from the lengths of its inputs and from the
/// bytes that the cipher produces where the lengths are right.
pub open spec fn cbc_encryption(
    key_len: nat,
    block: nat,
    src: Seq<u8>,
    key: Seq<u8>,
    iv: Seq<u8>,
    encrypted: Seq<u8>,
) -> Result<Seq<u8>, Error> {
    if !paddable(src.len(), block) {
        Err(Error::CryptoFailure(Failure::SourceTooLong))
    } else if key.len() != key_len || iv.len() != block {
        Err(Error::CryptoFailure(Failure::KeyIvLength))
    } else {
        Ok(encrypted)
    }
}

/// What CBC decryption gives, from the lengths of key and IV and from what
/// the cipher makes of the source where the lengths are right.
pub open spec fn cbc_decryption(
    key_len: nat,
    block: nat,
    key: Seq<u8>,
    iv: Seq<u8>,
    decrypted: Option<Seq<u8>>,
) -> Result<Seq<u8>, Error> {
    if key.len() != key_len || iv.len() != block {
        Err(Error::CryptoFailure(Failure::KeyIvLength))
    } else {
        match decrypted {
            Some(plain) => Ok(plain),
            None => Err(Error::CryptoFailure(Failure::Malformed)),
        }
    }
}

/// What a CTR transform gives, from the lengths of key and IV and from the
/// bytes that the cipher produces where the lengths are right.
pub open spec fn ctr_transform(
    key_len: nat,
    key: Seq<u8>,
    iv: Seq<u8>,
    applied: Seq<u8>,
) -> Result<Seq<u8>, Error> {
    if key.len() != key_len || iv.len() != 16 {
        Err(Error::CryptoFailure(Failure::KeyIvLength))
    } else {
        Ok(applied)
    }
}

/// Tells whether a source of `len` bytes can be padded by up to `block` bytes.
pub fn can_pad(len: usize, block: usize) -> (r: bool)
    ensures
        r == paddable(len as nat, block as nat),
{
    len <= isize::MAX as usize && block <= isize::MAX as usize - len
}

/// Turns the outcome of a CBC encryption into this library's result.
pub fn encrypted_or_failure(
    made: Result<Vec<u8>, InvalidKeyIvLength>,
) -> (res: Result<Vec<u8>, Error>)
    ensures
        res == match made {
            Ok(out) => Ok::<Vec<u8>, Error>(out),
            Err(_) => Err::<Vec<u8>, Error>(Error::CryptoFailure(Failure::KeyIvLength)),
        },
{
    match made {
        Ok(out) => Ok(out),
        Err(_) => Err(Error::CryptoFailure(Failure::KeyIvLength)),
    }
}

/// Turns the outcome of a CBC decryption into this library's result: a key or
/// IV of the wrong length is told apart from data that does not decrypt.
pub fn decrypted_or_failure(
    made: Result<Result<Vec<u8>, BlockModeError>, InvalidKeyIvLength>,
) -> (res: Result<Vec<u8>, Error>)
    ensures
        res == match made {
            Ok(Ok(out)) => Ok::<Vec<u8>, Error>(out),
            Ok(Err(_)) => Err::<Vec<u8>, Error>(Error::CryptoFailure(Failure::Malformed)),
            Err(_) => Err::<Vec<u8>, Error>(Error::CryptoFailure(Failure::KeyIvLength)),
        },
{
    match made {
        Ok(Ok(out)) => Ok(out),
        Ok(Err(_)) => Err(Error::CryptoFailure(Failure::Malformed)),
        Err(_) => Err(Error::CryptoFailure(Failure::KeyIvLength)),
    }
}

/// `data` with a keystream added: each byte is XORed with the byte that the
/// keystream has at its place.
pub open spec fn keystream_added(data: Seq<u8>, stream: spec_fn(int) -> u8) -> Seq<u8> {
    Seq::new(data.len(), |at: int| data[at] ^ stream(at))
}

/// XORing with one byte twice gives the first byte back.
proof fn lemma_xor_twice(a: u8, b: u8)
    ensures
        (a ^ b) ^ b == a,
{
    assert((a ^ b) ^ b == a) by (bit_vector);
}

/// Adding a keystream keeps the length, and adding it a second time gives
/// the data back: encrypting and decrypting with a keystream are one
/// operation.
pub proof fn lemma_keystream_twice(data: Seq<u8>, stream: spec_fn(int) -> u8)
    ensures
        keystream_added(data, stream).len() == data.len(),
        keystream_added(keystream_added(data, stream), stream) == data,
{
    let once = keystream_added(data, stream);
    assert forall|at: int| 0 <= at < data.len() implies #[trigger] keystream_added(once, stream)[at]
        == data[at] by {
        lemma_xor_twice(data[at], stream(at));
    }
    assert(keystream_added(once, stream) =~= data);
}

/// Bytes that are `data` XORed place by place with a keystream are `data`
/// with that keystream added, and adding it to them gives `data` back.
proof fn lemma_is_keystream_added(data: Seq<u8>, out: Seq<u8>, stream: spec_fn(int) -> u8)
    requires
        out.len() == data.len(),
        forall|at: int| 0 <= at < data.len() ==> #[trigger] out[at] == data[at] ^ stream(at),
    ensures
        out == keystream_added(data, stream),
        keystream_added(out, stream) == data,
{
    assert(out =~= keystream_added(data, stream));
    lemma_keystream_twice(data, stream);
}

/// Turns the outcome of a CTR transform into this library's result: the
/// bytes that the keystream was added to, unless the key or the IV was of the
/// wrong length.
pub fn applied_or_failure(
    made: Result<(), InvalidKeyNonceLength>,
    data: Vec<u8>,
) -> (res: Result<Vec<u8>, Error>)
    ensures
        res == match made {
            Ok(_) => Ok::<Vec<u8>, Error>(data),
            Err(_) => Err::<Vec<u8>, Error>(Error::CryptoFailure(Failure::KeyIvLength)),
        },
{
    match made {
        Ok(()) => Ok(data),
        Err(_) => Err(Error::CryptoFailure(Failure::KeyIvLength)),
    }
}

/// The bytes that AES-128 in CBC mode makes of `plain` padded by PKCS#7.
pub uninterp spec fn aes128_cbc_encrypted(key: Seq<u8>, iv: Seq<u8>, plain: Seq<u8>) -> Seq<u8>;

/// What AES-128 in CBC mode recovers from `data`, or `None` where `data` is not
/// a whole number of blocks or does not decrypt to validly padded bytes.
pub uninterp spec fn aes128_cbc_decrypted(key: Seq<u8>, iv: Seq<u8>, data: Seq<u8>) -> Option<Seq<u8>>;

/// `BlockMode::new_var` and then `BlockMode::encrypt_vec` of `block_modes`, on
/// `Cbc<Aes128, Pkcs7>`. The cipher is made exactly for a key of 16 and an IV
/// of 16 bytes. The output is the padded source encrypted: its length is the
/// next multiple of 16 above the source's, and decrypting it under the same
/// key and IV gives the source back.
#[verifier::external_body]
fn aes128_cbc_encrypt_vec(
    src: &[u8],
    key: &[u8],
    iv: &[u8],
) -> (r: Result<Vec<u8>, InvalidKeyIvLength>)
    requires
        paddable(src@.len(), 16),
    ensures
        r is Ok <==> (key@.len() == 16 && iv@.len() == 16),
        r matches Ok(out) ==> out@ == aes128_cbc_encrypted(key@, iv@, src@),
        r matches Ok(out) ==> out@.len() == padded_len(src@.len(), 16),
        r matches Ok(out) ==> aes128_cbc_decrypted(key@, iv@, out@) == Some(src@),
{
    Ok(Cbc::<Aes128, Pkcs7>::new_var(key, iv)?.encrypt_vec(src))
}

/// `BlockMode::new_var` and then `BlockMode::decrypt_vec` of `block_modes`, on
/// `Cbc<Aes128, Pkcs7>`. The outer result fails exactly for a key that is not
/// 16 or an IV that is not 16 bytes long. The inner one fails where the
/// source is not a whole number of blocks or the padding is malformed; what
/// it returns has lost at least the one byte of padding. A source that it
/// takes, and that is as long as what it returns is when padded, is the
/// encryption of what it returns: the cipher maps blocks one to one. A source that it
/// takes, and that is as long as what it returns is when padded, is the
/// encryption of what it returns: the cipher maps blocks one to one. A source that it
/// takes, and that is as long as what it returns is when padded, is the
/// encryption of what it returns: the cipher maps blocks one to one. A source that it
/// takes, and that is as long as what it returns is when padded, is the
/// encryption of what it returns: the cipher maps blocks one to one.
#[verifier::external_body]
fn aes128_cbc_decrypt_vec(
    src: &[u8],
    key: &[u8],
    iv: &[u8],
) -> (r: Result<Result<Vec<u8>, BlockModeError>, InvalidKeyIvLength>)
    ensures
        r is Ok <==> (key@.len() == 16 && iv@.len() == 16),
        r matches Ok(Ok(out)) ==> aes128_cbc_decrypted(key@, iv@, src@) == Some(out@),
        r matches Ok(Err(_)) ==> aes128_cbc_decrypted(key@, iv@, src@) is None,
        r matches Ok(Ok(out)) ==> (src@.len() % 16 == 0 && out@.len() < src@.len()),
        r matches Ok(Ok(out)) ==> (src@.len() == padded_len(out@.len(), 16) ==> src@
            == aes128_cbc_encrypted(key@, iv@, out@)),
{
    Ok(Cbc::<Aes128, Pkcs7>::new_var(key, iv)?.decrypt_vec(src))
}

/// What [`aes128cbc_encrypt`] returns.
pub open spec fn aes128cbc_encryption(src: Seq<u8>, key: Seq<u8>, iv: Seq<u8>) -> Result<Seq<u8>, Error> {
    cbc_encryption(16, 16, src, key, iv, aes128_cbc_encrypted(key, iv, src))
}

/// What [`aes128cbc_decrypt`] returns.
pub open spec fn aes128cbc_decryption(src: Seq<u8>, key: Seq<u8>, iv: Seq<u8>) -> Result<Seq<u8>, Error> {
    cbc_decryption(16, 16, key, iv, aes128_cbc_decrypted(key, iv, src))
}

/// Encrypts `src` with AES-128 in CBC mode under a key of 16 and an IV of 16
/// bytes. The source is padded first, also where its length is already a
/// multiple of 16.
pub fn aes128cbc_encrypt(src: &[u8], key: &[u8], iv: &[u8]) -> (res: Result<Vec<u8>, Error>)
    ensures
        outcome(res) == aes128cbc_encryption(src@, key@, iv@),
        res matches Ok(out) ==> out@.len() == padded_len(src@.len(), 16),
        res matches Ok(out) ==> aes128cbc_decryption(out@, key@, iv@) == Ok::<Seq<u8>, Error>(src@),
{
    if !can_pad(src.len(), 16) {
        return Err(Error::CryptoFailure(Failure::SourceTooLong));
    }
    encrypted_or_failure(aes128_cbc_encrypt_vec(src, key, iv))
}

/// Decrypts `src` with AES-128 in CBC mode and strips the padding.
pub fn aes128cbc_decrypt(src: &[u8], key: &[u8], iv: &[u8]) -> (res: Result<Vec<u8>, Error>)
    ensures
        outcome(res) == aes128cbc_decryption(src@, key@, iv@),
        res matches Ok(out) ==> src@.len() % 16 == 0 && out@.len() < src@.len(),
        res matches Ok(out) ==> (src@.len() == padded_len(out@.len(), 16) ==> src@
            == aes128_cbc_encrypted(key@, iv@, out@)),
{
    decrypted_or_failure(aes128_cbc_decrypt_vec(src, key, iv))
}

/// The bytes that AES-192 in CBC mode makes of `plain` padded by PKCS#7.
pub uninterp spec fn aes192_cbc_encrypted(key: Seq<u8>, iv: Seq<u8>, plain: Seq<u8>) -> Seq<u8>;

/// What AES-192 in CBC mode recovers from `data`, or `None` where `data` is not
/// a whole number of blocks or does not decrypt to validly padded bytes.
pub uninterp spec fn aes192_cbc_decrypted(key: Seq<u8>, iv: Seq<u8>, data: Seq<u8>) -> Option<Seq<u8>>;

/// `BlockMode::new_var` and then `BlockMode::encrypt_vec` of `block_modes`, on
/// `Cbc<Aes192, Pkcs7>`. The cipher is made exactly for a key of 24 and an IV
/// of 16 bytes. The output is the padded source encrypted: its length is the
/// next multiple of 16 above the source's, and decrypting it under the same
/// key and IV gives the source back.
#[verifier::external_body]
fn aes192_cbc_encrypt_vec(
    src: &[u8],
    key: &[u8],
    iv: &[u8],
) -> (r: Result<Vec<u8>, InvalidKeyIvLength>)
    requires
        paddable(src@.len(), 16),
    ensures
        r is Ok <==> (key@.len() == 24 && iv@.len() == 16),
        r matches Ok(out) ==> out@ == aes192_cbc_encrypted(key@, iv@, src@),
        r matches Ok(out) ==> out@.len() == padded_len(src@.len(), 16),
        r matches Ok(out) ==> aes192_cbc_decrypted(key@, iv@, out@) == Some(src@),
{
    Ok(Cbc::<Aes192, Pkcs7>::new_var(key, iv)?.encrypt_vec(src))
}

/// `BlockMode::new_var` and then `BlockMode::decrypt_vec` of `block_modes`, on
/// `Cbc<Aes192, Pkcs7>`. The outer result fails exactly for a key that is not
/// 24 or an IV that is not 16 bytes long. The inner one fails where the
/// source is not a whole number of blocks or the padding is malformed; what
/// it returns has lost at least the one byte of padding.
#[verifier::external_body]
fn aes192_cbc_decrypt_vec(
    src: &[u8],
    key: &[u8],
    iv: &[u8],
) -> (r: Result<Result<Vec<u8>, BlockModeError>, InvalidKeyIvLength>)
    ensures
        r is Ok <==> (key@.len() == 24 && iv@.len() == 16),
        r matches Ok(Ok(out)) ==> aes192_cbc_decrypted(key@, iv@, src@) == Some(out@),
        r matches Ok(Err(_)) ==> aes192_cbc_decrypted(key@, iv@, src@) is None,
        r matches Ok(Ok(out)) ==> (src@.len() % 16 == 0 && out@.len() < src@.len()),
        r matches Ok(Ok(out)) ==> (src@.len() == padded_len(out@.len(), 16) ==> src@
            == aes192_cbc_encrypted(key@, iv@, out@)),
{
    Ok(Cbc::<Aes192, Pkcs7>::new_var(key, iv)?.decrypt_vec(src))
}

/// What [`aes192cbc_encrypt`] returns.
pub open spec fn aes192cbc_encryption(src: Seq<u8>, key: Seq<u8>, iv: Seq<u8>) -> Result<Seq<u8>, Error> {
    cbc_encryption(24, 16, src, key, iv, aes192_cbc_encrypted(key, iv, src))
}

/// What [`aes192cbc_decrypt`] returns.
pub open spec fn aes192cbc_decryption(src: Seq<u8>, key: Seq<u8>, iv: Seq<u8>) -> Result<Seq<u8>, Error> {
    cbc_decryption(24, 16, key, iv, aes192_cbc_decrypted(key, iv, src))
}

/// Encrypts `src` with AES-192 in CBC mode under a key of 24 and an IV of 16
/// bytes. The source is padded first, also where its length is already a
/// multiple of 16.
pub fn aes192cbc_encrypt(src: &[u8], key: &[u8], iv: &[u8]) -> (res: Result<Vec<u8>, Error>)
    ensures
        outcome(res) == aes192cbc_encryption(src@, key@, iv@),
        res matches Ok(out) ==> out@.len() == padded_len(src@.len(), 16),
        res matches Ok(out) ==> aes192cbc_decryption(out@, key@, iv@) == Ok::<Seq<u8>, Error>(src@),
{
    if !can_pad(src.len(), 16) {
        return Err(Error::CryptoFailure(Failure::SourceTooLong));
    }
    encrypted_or_failure(aes192_cbc_encrypt_vec(src, key, iv))
}

/// Decrypts `src` with AES-192 in CBC mode and strips the padding.
pub fn aes192cbc_decrypt(src: &[u8], key: &[u8], iv: &[u8]) -> (res: Result<Vec<u8>, Error>)
    ensures
        outcome(res) == aes192cbc_decryption(src@, key@, iv@),
        res matches Ok(out) ==> src@.len() % 16 == 0 && out@.len() < src@.len(),
        res matches Ok(out) ==> (src@.len() == padded_len(out@.len(), 16) ==> src@
            == aes192_cbc_encrypted(key@, iv@, out@)),
{
    decrypted_or_failure(aes192_cbc_decrypt_vec(src, key, iv))
}

/// The bytes that AES-256 in CBC mode makes of `plain` padded by PKCS#7.
pub uninterp spec fn aes256_cbc_encrypted(key: Seq<u8>, iv: Seq<u8>, plain: Seq<u8>) -> Seq<u8>;

/// What AES-256 in CBC mode recovers from `data`, or `None` where `data` is not
/// a whole number of blocks or does not decrypt to validly padded bytes.
pub uninterp spec fn aes256_cbc_decrypted(key: Seq<u8>, iv: Seq<u8>, data: Seq<u8>) -> Option<Seq<u8>>;

/// `BlockMode::new_var` and then `BlockMode::encrypt_vec` of `block_modes`, on
/// `Cbc<Aes256, Pkcs7>`. The cipher is made exactly for a key of 32 and an IV
/// of 16 bytes. The output is the padded source encrypted: its length is the
/// next multiple of 16 above the source's, and decrypting it under the same
/// key and IV gives the source back.
#[verifier::external_body]
fn aes256_cbc_encrypt_vec(
    src: &[u8],
    key: &[u8],
    iv: &[u8],
) -> (r: Result<Vec<u8>, InvalidKeyIvLength>)
    requires
        paddable(src@.len(), 16),
    ensures
        r is Ok <==> (key@.len() == 32 && iv@.len() == 16),
        r matches Ok(out) ==> out@ == aes256_cbc_encrypted(key@, iv@, src@),
        r matches Ok(out) ==> out@.len() == padded_len(src@.len(), 16),
        r matches Ok(out) ==> aes256_cbc_decrypted(key@, iv@, out@) == Some(src@),
{
    Ok(Cbc::<Aes256, Pkcs7>::new_var(key, iv)?.encrypt_vec(src))
}

/// `BlockMode::new_var` and then `BlockMode::decrypt_vec` of `block_modes`, on
/// `Cbc<Aes256, Pkcs7>`. The outer result fails exactly for a key that is not
/// 32 or an IV that is not 16 bytes long. The inner one fails where the
/// source is not a whole number of blocks or the padding is malformed; what
/// it returns has lost at least the one byte of padding.
#[verifier::external_body]
fn aes256_cbc_decrypt_vec(
    src: &[u8],
    key: &[u8],
    iv: &[u8],
) -> (r: Result<Result<Vec<u8>, BlockModeError>, InvalidKeyIvLength>)
    ensures
        r is Ok <==> (key@.len() == 32 && iv@.len() == 16),
        r matches Ok(Ok(out)) ==> aes256_cbc_decrypted(key@, iv@, src@) == Some(out@),
        r matches Ok(Err(_)) ==> aes256_cbc_decrypted(key@, iv@, src@) is None,
        r matches Ok(Ok(out)) ==> (src@.len() % 16 == 0 && out@.len() < src@.len()),
        r matches Ok(Ok(out)) ==> (src@.len() == padded_len(out@.len(), 16) ==> src@
            == aes256_cbc_encrypted(key@, iv@, out@)),
{
    Ok(Cbc::<Aes256, Pkcs7>::new_var(key, iv)?.decrypt_vec(src))
}

/// What [`aes256cbc_encrypt`] returns.
pub open spec fn aes256cbc_encryption(src: Seq<u8>, key: Seq<u8>, iv: Seq<u8>) -> Result<Seq<u8>, Error> {
    cbc_encryption(32, 16, src, key, iv, aes256_cbc_encrypted(key, iv, src))
}

/// What [`aes256cbc_decrypt`] returns.
pub open spec fn aes256cbc_decryption(src: Seq<u8>, key: Seq<u8>, iv: Seq<u8>) -> Result<Seq<u8>, Error> {
    cbc_decryption(32, 16, key, iv, aes256_cbc_decrypted(key, iv, src))
}

/// Encrypts `src` with AES-256 in CBC mode under a key of 32 and an IV of 16
/// bytes. The source is padded first, also where its length is already a
/// multiple of 16.
pub fn aes256cbc_encrypt(src: &[u8], key: &[u8], iv: &[u8]) -> (res: Result<Vec<u8>, Error>)
    ensures
        outcome(res) == aes256cbc_encryption(src@, key@, iv@),
        res matches Ok(out) ==> out@.len() == padded_len(src@.len(), 16),
        res matches Ok(out) ==> aes256cbc_decryption(out@, key@, iv@) == Ok::<Seq<u8>, Error>(src@),
{
    if !can_pad(src.len(), 16) {
        return Err(Error::CryptoFailure(Failure::SourceTooLong));
    }
    encrypted_or_failure(aes256_cbc_encrypt_vec(src, key, iv))
}

/// Decrypts `src` with AES-256 in CBC mode and strips the padding.
pub fn aes256cbc_decrypt(src: &[u8], key: &[u8], iv: &[u8]) -> (res: Result<Vec<u8>, Error>)
    ensures
        outcome(res) == aes256cbc_decryption(src@, key@, iv@),
        res matches Ok(out) ==> src@.len() % 16 == 0 && out@.len() < src@.len(),
        res matches Ok(out) ==> (src@.len() == padded_len(out@.len(), 16) ==> src@
            == aes256_cbc_encrypted(key@, iv@, out@)),
{
    decrypted_or_failure(aes256_cbc_decrypt_vec(src, key, iv))
}

/// The bytes that triple DES in CBC mode makes of `plain` padded by PKCS#7.
pub uninterp spec fn tdes_cbc_encrypted(key: Seq<u8>, iv: Seq<u8>, plain: Seq<u8>) -> Seq<u8>;

/// What triple DES in CBC mode recovers from `data`, or `None` where `data` is not
/// a whole number of blocks or does not decrypt to validly padded bytes.
pub uninterp spec fn tdes_cbc_decrypted(key: Seq<u8>, iv: Seq<u8>, data: Seq<u8>) -> Option<Seq<u8>>;

/// `BlockMode::new_var` and then `BlockMode::encrypt_vec` of `block_modes`, on
/// `Cbc<TdesEde3, Pkcs7>`. The cipher is made exactly for a key of 24 and an IV
/// of 8 bytes. The output is the padded source encrypted: its length is the
/// next multiple of 8 above the source's, and decrypting it under the same
/// key and IV gives the source back.
#[verifier::external_body]
fn tdes_cbc_encrypt_vec(
    src: &[u8],
    key: &[u8],
    iv: &[u8],
) -> (r: Result<Vec<u8>, InvalidKeyIvLength>)
    requires
        paddable(src@.len(), 8),
    ensures
        r is Ok <==> (key@.len() == 24 && iv@.len() == 8),
        r matches Ok(out) ==> out@ == tdes_cbc_encrypted(key@, iv@, src@),
        r matches Ok(out) ==> out@.len() == padded_len(src@.len(), 8),
        r matches Ok(out) ==> tdes_cbc_decrypted(key@, iv@, out@) == Some(src@),
{
    Ok(Cbc::<TdesEde3, Pkcs7>::new_var(key, iv)?.encrypt_vec(src))
}

/// `BlockMode::new_var` and then `BlockMode::decrypt_vec` of `block_modes`, on
/// `Cbc<TdesEde3, Pkcs7>`. The outer result fails exactly for a key that is not
/// 24 or an IV that is not 8 bytes long. The inner one fails where the
/// source is not a whole number of blocks or the padding is malformed; what
/// it returns has lost at least the one byte of padding.
#[verifier::external_body]
fn tdes_cbc_decrypt_vec(
    src: &[u8],
    key: &[u8],
    iv: &[u8],
) -> (r: Result<Result<Vec<u8>, BlockModeError>, InvalidKeyIvLength>)
    ensures
        r is Ok <==> (key@.len() == 24 && iv@.len() == 8),
        r matches Ok(Ok(out)) ==> tdes_cbc_decrypted(key@, iv@, src@) == Some(out@),
        r matches Ok(Err(_)) ==> tdes_cbc_decrypted(key@, iv@, src@) is None,
        r matches Ok(Ok(out)) ==> (src@.len() % 8 == 0 && out@.len() < src@.len()),
        r matches Ok(Ok(out)) ==> (src@.len() == padded_len(out@.len(), 8) ==> src@
            == tdes_cbc_encrypted(key@, iv@, out@)),
{
    Ok(Cbc::<TdesEde3, Pkcs7>::new_var(key, iv)?.decrypt_vec(src))
}

/// What [`tdescbc_encrypt`] returns.
pub open spec fn tdescbc_encryption(src: Seq<u8>, key: Seq<u8>, iv: Seq<u8>) -> Result<Seq<u8>, Error> {
    cbc_encryption(24, 8, src, key, iv, tdes_cbc_encrypted(key, iv, src))
}

/// What [`tdescbc_decrypt`] returns.
pub open spec fn tdescbc_decryption(src: Seq<u8>, key: Seq<u8>, iv: Seq<u8>) -> Result<Seq<u8>, Error> {
    cbc_decryption(24, 8, key, iv, tdes_cbc_decrypted(key, iv, src))
}

/// Encrypts `src` with triple DES in CBC mode under a key of 24 and an IV of 8
/// bytes. The source is padded first, also where its length is already a
/// multiple of 8.
pub fn tdescbc_encrypt(src: &[u8], key: &[u8], iv: &[u8]) -> (res: Result<Vec<u8>, Error>)
    ensures
        outcome(res) == tdescbc_encryption(src@, key@, iv@),
        res matches Ok(out) ==> out@.len() == padded_len(src@.len(), 8),
        res matches Ok(out) ==> tdescbc_decryption(out@, key@, iv@) == Ok::<Seq<u8>, Error>(src@),
{
    if !can_pad(src.len(), 8) {
        return Err(Error::CryptoFailure(Failure::SourceTooLong));
    }
    encrypted_or_failure(tdes_cbc_encrypt_vec(src, key, iv))
}

/// Decrypts `src` with triple DES in CBC mode and strips the padding.
pub fn tdescbc_decrypt(src: &[u8], key: &[u8], iv: &[u8]) -> (res: Result<Vec<u8>, Error>)
    ensures
        outcome(res) == tdescbc_decryption(src@, key@, iv@),
        res matches Ok(out) ==> src@.len() % 8 == 0 && out@.len() < src@.len(),
        res matches Ok(out) ==> (src@.len() == padded_len(out@.len(), 8) ==> src@
            == tdes_cbc_encrypted(key@, iv@, out@)),
{
    decrypted_or_failure(tdes_cbc_decrypt_vec(src, key, iv))
}

/// The byte at place `at` of the keystream of AES-128 in CTR mode under
/// `key`, started at the counter block `iv`.
pub uninterp spec fn aes128_ctr_keystream(key: Seq<u8>, iv: Seq<u8>, at: int) -> u8;

/// The keystream of AES-128 in CTR mode under `key`, started at the counter
/// block `iv`, place by place.
pub open spec fn aes128_ctr_stream(key: Seq<u8>, iv: Seq<u8>) -> spec_fn(int) -> u8 {
    |at: int| aes128_ctr_keystream(key, iv, at)
}

/// The bytes that `data` becomes when that keystream is added to it.
pub open spec fn aes128_ctr_applied(key: Seq<u8>, iv: Seq<u8>, data: Seq<u8>) -> Seq<u8> {
    keystream_added(data, aes128_ctr_stream(key, iv))
}

/// `NewStreamCipher::new_var` and then `SyncStreamCipher::apply_keystream` of
/// `cipher`, on `Aes128Ctr`. The cipher is made exactly for a key of 16 and an
/// IV of 16 bytes; otherwise `data` is left as it was. The keystream is added
/// in place: the length stays, and each byte is XORed with the byte of the
/// keystream at its place.
#[verifier::external_body]
fn aes128_ctr_apply_keystream(
    data: &mut Vec<u8>,
    key: &[u8],
    iv: &[u8],
) -> (r: Result<(), InvalidKeyNonceLength>)
    ensures
        r is Ok <==> (key@.len() == 16 && iv@.len() == 16),
        r is Err ==> final(data)@ == old(data)@,
        r is Ok ==> final(data)@.len() == old(data)@.len(),
        r is Ok ==> forall|at: int|
            0 <= at < old(data)@.len() ==> #[trigger] final(data)@[at] == old(data)@[at]
                ^ aes128_ctr_keystream(key@, iv@, at),
{
    Aes128Ctr::new_var(key, iv)?.apply_keystream(data);
    Ok(())
}

/// What [`aes128ctr_encrypt`] and [`aes128ctr_decrypt`] return.
pub open spec fn aes128ctr_transform(src: Seq<u8>, key: Seq<u8>, iv: Seq<u8>) -> Result<Seq<u8>, Error> {
    ctr_transform(16, key, iv, aes128_ctr_applied(key, iv, src))
}

/// Encrypts `src` with AES-128 in CTR mode under a key of 16 and an IV of 16
/// bytes. The output is as long as the source.
pub fn aes128ctr_encrypt(src: &[u8], key: &[u8], iv: &[u8]) -> (res: Result<Vec<u8>, Error>)
    ensures
        outcome(res) == aes128ctr_transform(src@, key@, iv@),
        res matches Ok(out) ==> out@.len() == src@.len(),
        res matches Ok(out) ==> aes128ctr_transform(out@, key@, iv@) == Ok::<Seq<u8>, Error>(src@),
{
    let mut encrypted = slice_to_vec(src);
    let made = aes128_ctr_apply_keystream(&mut encrypted, key, iv);
    proof {
        if made is Ok {
            lemma_is_keystream_added(src@, encrypted@, aes128_ctr_stream(key@, iv@));
        }
    }
    applied_or_failure(made, encrypted)
}

/// Decrypts `src` with AES-128 in CTR mode: the same transform as encrypting.
pub fn aes128ctr_decrypt(src: &[u8], key: &[u8], iv: &[u8]) -> (res: Result<Vec<u8>, Error>)
    ensures
        outcome(res) == aes128ctr_transform(src@, key@, iv@),
        res matches Ok(out) ==> out@.len() == src@.len(),
        res matches Ok(out) ==> aes128ctr_transform(out@, key@, iv@) == Ok::<Seq<u8>, Error>(src@),
{
    let mut decrypted = slice_to_vec(src);
    let made = aes128_ctr_apply_keystream(&mut decrypted, key, iv);
    proof {
        if made is Ok {
            lemma_is_keystream_added(src@, decrypted@, aes128_ctr_stream(key@, iv@));
        }
    }
    applied_or_failure(made, decrypted)
}

/// The byte at place `at` of the keystream of AES-192 in CTR mode under
/// `key`, started at the counter block `iv`.
pub uninterp spec fn aes192_ctr_keystream(key: Seq<u8>, iv: Seq<u8>, at: int) -> u8;

/// The keystream of AES-192 in CTR mode under `key`, started at the counter
/// block `iv`, place by place.
pub open spec fn aes192_ctr_stream(key: Seq<u8>, iv: Seq<u8>) -> spec_fn(int) -> u8 {
    |at: int| aes192_ctr_keystream(key, iv, at)
}

/// The bytes that `data` becomes when that keystream is added to it.
pub open spec fn aes192_ctr_applied(key: Seq<u8>, iv: Seq<u8>, data: Seq<u8>) -> Seq<u8> {
    keystream_added(data, aes192_ctr_stream(key, iv))
}

/// `NewStreamCipher::new_var` and then `SyncStreamCipher::apply_keystream` of
/// `cipher`, on `Aes192Ctr`. The cipher is made exactly for a key of 24 and an
/// IV of 16 bytes; otherwise `data` is left as it was. The keystream is added
/// in place: the length stays, and each byte is XORed with the byte of the
/// keystream at its place.
#[verifier::external_body]
fn aes192_ctr_apply_keystream(
    data: &mut Vec<u8>,
    key: &[u8],
    iv: &[u8],
) -> (r: Result<(), InvalidKeyNonceLength>)
    ensures
        r is Ok <==> (key@.len() == 24 && iv@.len() == 16),
        r is Err ==> final(data)@ == old(data)@,
        r is Ok ==> final(data)@.len() == old(data)@.len(),
        r is Ok ==> forall|at: int|
            0 <= at < old(data)@.len() ==> #[trigger] final(data)@[at] == old(data)@[at]
                ^ aes192_ctr_keystream(key@, iv@, at),
{
    Aes192Ctr::new_var(key, iv)?.apply_keystream(data);
    Ok(())
}

/// What [`aes192ctr_encrypt`] and [`aes192ctr_decrypt`] return.
pub open spec fn aes192ctr_transform(src: Seq<u8>, key: Seq<u8>, iv: Seq<u8>) -> Result<Seq<u8>, Error> {
    ctr_transform(24, key, iv, aes192_ctr_applied(key, iv, src))
}

/// Encrypts `src` with AES-192 in CTR mode under a key of 24 and an IV of 16
/// bytes. The output is as long as the source.
pub fn aes192ctr_encrypt(src: &[u8], key: &[u8], iv: &[u8]) -> (res: Result<Vec<u8>, Error>)
    ensures
        outcome(res) == aes192ctr_transform(src@, key@, iv@),
        res matches Ok(out) ==> out@.len() == src@.len(),
        res matches Ok(out) ==> aes192ctr_transform(out@, key@, iv@) == Ok::<Seq<u8>, Error>(src@),
{
    let mut encrypted = slice_to_vec(src);
    let made = aes192_ctr_apply_keystream(&mut encrypted, key, iv);
    proof {
        if made is Ok {
            lemma_is_keystream_added(src@, encrypted@, aes192_ctr_stream(key@, iv@));
        }
    }
    applied_or_failure(made, encrypted)
}

/// Decrypts `src` with AES-192 in CTR mode: the same transform as encrypting.
pub fn aes192ctr_decrypt(src: &[u8], key: &[u8], iv: &[u8]) -> (res: Result<Vec<u8>, Error>)
    ensures
        outcome(res) == aes192ctr_transform(src@, key@, iv@),
        res matches Ok(out) ==> out@.len() == src@.len(),
        res matches Ok(out) ==> aes192ctr_transform(out@, key@, iv@) == Ok::<Seq<u8>, Error>(src@),
{
    let mut decrypted = slice_to_vec(src);
    let made = aes192_ctr_apply_keystream(&mut decrypted, key, iv);
    proof {
        if made is Ok {
            lemma_is_keystream_added(src@, decrypted@, aes192_ctr_stream(key@, iv@));
        }
    }
    applied_or_failure(made, decrypted)
}

/// The byte at place `at` of the keystream of AES-256 in CTR mode under
/// `key`, started at the counter block `iv`.
pub uninterp spec fn aes256_ctr_keystream(key: Seq<u8>, iv: Seq<u8>, at: int) -> u8;

/// The keystream of AES-256 in CTR mode under `key`, started at the counter
/// block `iv`, place by place.
pub open spec fn aes256_ctr_stream(key: Seq<u8>, iv: Seq<u8>) -> spec_fn(int) -> u8 {
    |at: int| aes256_ctr_keystream(key, iv, at)
}

/// The bytes that `data` becomes when that keystream is added to it.
pub open spec fn aes256_ctr_applied(key: Seq<u8>, iv: Seq<u8>, data: Seq<u8>) -> Seq<u8> {
    keystream_added(data, aes256_ctr_stream(key, iv))
}

/// `NewStreamCipher::new_var` and then `SyncStreamCipher::apply_keystream` of
/// `cipher`, on `Aes256Ctr`. The cipher is made exactly for a key of 32 and an
/// IV of 16 bytes; otherwise `data` is left as it was. The keystream is added
/// in place: the length stays, and each byte is XORed with the byte of the
/// keystream at its place.
#[verifier::external_body]
fn aes256_ctr_apply_keystream(
    data: &mut Vec<u8>,
    key: &[u8],
    iv: &[u8],
) -> (r: Result<(), InvalidKeyNonceLength>)
    ensures
        r is Ok <==> (key@.len() == 32 && iv@.len() == 16),
        r is Err ==> final(data)@ == old(data)@,
        r is Ok ==> final(data)@.len() == old(data)@.len(),
        r is Ok ==> forall|at: int|
            0 <= at < old(data)@.len() ==> #[trigger] final(data)@[at] == old(data)@[at]
                ^ aes256_ctr_keystream(key@, iv@, at),
{
    Aes256Ctr::new_var(key, iv)?.apply_keystream(data);
    Ok(())
}

/// What [`aes256ctr_encrypt`] and [`aes256ctr_decrypt`] return.
pub open spec fn aes256ctr_transform(src: Seq<u8>, key: Seq<u8>, iv: Seq<u8>) -> Result<Seq<u8>, Error> {
    ctr_transform(32, key, iv, aes256_ctr_applied(key, iv, src))
}

/// Encrypts `src` with AES-256 in CTR mode under a key of 32 and an IV of 16
/// bytes. The output is as long as the source.
pub fn aes256ctr_encrypt(src: &[u8], key: &[u8], iv: &[u8]) -> (res: Result<Vec<u8>, Error>)
    ensures
        outcome(res) == aes256ctr_transform(src@, key@, iv@),
        res matches Ok(out) ==> out@.len() == src@.len(),
        res matches Ok(out) ==> aes256ctr_transform(out@, key@, iv@) == Ok::<Seq<u8>, Error>(src@),
{
    let mut encrypted = slice_to_vec(src);
    let made = aes256_ctr_apply_keystream(&mut encrypted, key, iv);
    proof {
        if made is Ok {
            lemma_is_keystream_added(src@, encrypted@, aes256_ctr_stream(key@, iv@));
        }
    }
    applied_or_failure(made, encrypted)
}

/// Decrypts `src` with AES-256 in CTR mode: the same transform as encrypting.
pub fn aes256ctr_decrypt(src: &[u8], key: &[u8], iv: &[u8]) -> (res: Result<Vec<u8>, Error>)
    ensures
        outcome(res) == aes256ctr_transform(src@, key@, iv@),
        res matches Ok(out) ==> out@.len() == src@.len(),
        res matches Ok(out) ==> aes256ctr_transform(out@, key@, iv@) == Ok::<Seq<u8>, Error>(src@),
{
    let mut decrypted = slice_to_vec(src);
    let made = aes256_ctr_apply_keystream(&mut decrypted, key, iv);
    proof {
        if made is Ok {
            lemma_is_keystream_added(src@, decrypted@, aes256_ctr_stream(key@, iv@));
        }
    }
    applied_or_failure(made, decrypted)
}

} // verus!
