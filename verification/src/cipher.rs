//! The closed set of ciphers, what is fixed for each, and lookup by name.

use crate::error::{outcome, Error, Failure};
use crate::software;
use std::str::FromStr;
use vstd::prelude::*;
use vstd::slice::slice_to_vec;
use vstd::utf8::encode_utf8_decode_utf8;

verus! {

/// A supported cipher suite.
#[derive(Clone, Copy, Debug, PartialEq, Eq, Structural)]
#[allow(non_camel_case_types)]
#[non_exhaustive]
pub enum Cipher {
    Aes128_Cbc,
    Aes192_Cbc,
    Aes256_Cbc,
    Aes128_Ctr,
    Aes192_Ctr,
    Aes256_Ctr,
    TDes_Cbc,
    Null,
}

impl Cipher {
    /// Length of the key in bytes.
    pub open spec fn spec_key_len(self) -> usize {
        match self {
            Cipher::Aes128_Cbc | Cipher::Aes128_Ctr => 16,
            Cipher::Aes192_Cbc | Cipher::Aes192_Ctr | Cipher::TDes_Cbc => 24,
            Cipher::Aes256_Cbc | Cipher::Aes256_Ctr => 32,
            Cipher::Null => 0,
        }
    }

    /// Length of the key in bytes.
    #[verifier::when_used_as_spec(spec_key_len)]
    pub fn key_len(self) -> (n: usize)
        ensures
            n == self.spec_key_len(),
    {
        match self {
            Cipher::Aes128_Cbc => 16,
            Cipher::Aes192_Cbc => 24,
            Cipher::Aes256_Cbc => 32,
            Cipher::Aes128_Ctr => 16,
            Cipher::Aes192_Ctr => 24,
            Cipher::Aes256_Ctr => 32,
            Cipher::TDes_Cbc => 24,
            Cipher::Null => 0,
        }
    }

    /// Length of the initialisation vector in bytes.
    pub open spec fn spec_iv_len(self) -> usize {
        match self {
            Cipher::TDes_Cbc => 8,
            Cipher::Null => 0,
            _ => 16,
        }
    }

    /// Length of the initialisation vector in bytes.
    #[verifier::when_used_as_spec(spec_iv_len)]
    pub fn iv_len(self) -> (n: usize)
        ensures
            n == self.spec_iv_len(),
    {
        match self {
            Cipher::Aes128_Cbc => 16,
            Cipher::Aes192_Cbc => 16,
            Cipher::Aes256_Cbc => 16,
            Cipher::Aes128_Ctr => 16,
            Cipher::Aes192_Ctr => 16,
            Cipher::Aes256_Ctr => 16,
            Cipher::TDes_Cbc => 8,
            Cipher::Null => 0,
        }
    }

    /// Size in bytes of the block that the underlying primitive works on.
    pub open spec fn spec_block_size(self) -> usize {
        match self {
            Cipher::TDes_Cbc => 8,
            Cipher::Null => 0,
            _ => 16,
        }
    }

    /// Size in bytes of the block that the underlying primitive works on.
    #[verifier::when_used_as_spec(spec_block_size)]
    pub fn block_size(self) -> (n: usize)
        ensures
            n == self.spec_block_size(),
    {
        match self {
            Cipher::Aes128_Cbc => 16,
            Cipher::Aes192_Cbc => 16,
            Cipher::Aes256_Cbc => 16,
            Cipher::Aes128_Ctr => 16,
            Cipher::Aes192_Ctr => 16,
            Cipher::Aes256_Ctr => 16,
            Cipher::TDes_Cbc => 8,
            Cipher::Null => 0,
        }
    }

    /// The canonical name, as a sequence of characters.
    pub open spec fn spec_name(self) -> Seq<char> {
        match self {
            Cipher::Aes128_Cbc => "aes128-cbc"@,
            Cipher::Aes192_Cbc => "aes192-cbc"@,
            Cipher::Aes256_Cbc => "aes256-cbc"@,
            Cipher::Aes128_Ctr => "aes128-ctr"@,
            Cipher::Aes192_Ctr => "aes192-ctr"@,
            Cipher::Aes256_Ctr => "aes256-ctr"@,
            Cipher::TDes_Cbc => "3des-cbc"@,
            Cipher::Null => "none"@,
        }
    }

    /// The canonical name: lower case, with a hyphen between algorithm and mode.
    pub fn name(self) -> (r: &'static str)
        ensures
            r@ == self.spec_name(),
    {
        match self {
            Cipher::Aes128_Cbc => "aes128-cbc",
            Cipher::Aes192_Cbc => "aes192-cbc",
            Cipher::Aes256_Cbc => "aes256-cbc",
            Cipher::Aes128_Ctr => "aes128-ctr",
            Cipher::Aes192_Ctr => "aes192-ctr",
            Cipher::Aes256_Ctr => "aes256-ctr",
            Cipher::TDes_Cbc => "3des-cbc",
            Cipher::Null => "none",
        }
    }

    /// True only for the pass-through cipher.
    pub fn is_null(self) -> (r: bool)
        ensures
            r == (self == Cipher::Null),
    {
        self == Cipher::Null
    }

    /// Whether the cipher chains blocks, and so pads what it encrypts.
    pub open spec fn is_cbc(self) -> bool {
        match self {
            Cipher::Aes128_Cbc | Cipher::Aes192_Cbc | Cipher::Aes256_Cbc | Cipher::TDes_Cbc => true,
            _ => false,
        }
    }

    /// Whether a key and an IV of these lengths suit the cipher. `Null` takes
    /// anything; the others take exactly their own lengths.
    pub open spec fn takes(self, key_len: nat, iv_len: nat) -> bool {
        self == Cipher::Null || (key_len == self.spec_key_len() && iv_len == self.spec_iv_len())
    }

    /// Whether `encrypt` succeeds on a source, a key and an IV of these
    /// lengths: the key and the IV must suit the cipher, and for a block
    /// cipher the source must leave room for its padding.
    pub open spec fn can_encrypt(self, src_len: nat, key_len: nat, iv_len: nat) -> bool {
        self.takes(key_len, iv_len) && (self.is_cbc() ==> software::paddable(
            src_len,
            self.spec_block_size() as nat,
        ))
    }

    /// Length of what `encrypt` makes of `src_len` bytes: a block cipher pads
    /// to the next multiple of its block size above `src_len`, the others
    /// keep the length.
    pub open spec fn encrypted_len(self, src_len: nat) -> nat {
        if self.is_cbc() {
            software::padded_len(src_len, self.spec_block_size() as nat)
        } else {
            src_len
        }
    }

    /// The bytes that the cipher makes of `src` under `key` and `iv`: the
    /// source itself for `Null`, else what the software transform computes.
    pub open spec fn ciphertext(self, src: Seq<u8>, key: Seq<u8>, iv: Seq<u8>) -> Seq<u8> {
        match self {
            Cipher::Aes128_Cbc => software::aes128_cbc_encrypted(key, iv, src),
            Cipher::Aes192_Cbc => software::aes192_cbc_encrypted(key, iv, src),
            Cipher::Aes256_Cbc => software::aes256_cbc_encrypted(key, iv, src),
            Cipher::Aes128_Ctr => software::aes128_ctr_applied(key, iv, src),
            Cipher::Aes192_Ctr => software::aes192_ctr_applied(key, iv, src),
            Cipher::Aes256_Ctr => software::aes256_ctr_applied(key, iv, src),
            Cipher::TDes_Cbc => software::tdes_cbc_encrypted(key, iv, src),
            Cipher::Null => src,
        }
    }

    /// What `encrypt` returns.
    pub open spec fn encryption(self, src: Seq<u8>, key: Seq<u8>, iv: Seq<u8>) -> Result<Seq<u8>, Error> {
        match self {
            Cipher::Aes128_Cbc => software::aes128cbc_encryption(src, key, iv),
            Cipher::Aes192_Cbc => software::aes192cbc_encryption(src, key, iv),
            Cipher::Aes256_Cbc => software::aes256cbc_encryption(src, key, iv),
            Cipher::Aes128_Ctr => software::aes128ctr_transform(src, key, iv),
            Cipher::Aes192_Ctr => software::aes192ctr_transform(src, key, iv),
            Cipher::Aes256_Ctr => software::aes256ctr_transform(src, key, iv),
            Cipher::TDes_Cbc => software::tdescbc_encryption(src, key, iv),
            Cipher::Null => Ok(src),
        }
    }

    /// What `decrypt` returns.
    pub open spec fn decryption(self, src: Seq<u8>, key: Seq<u8>, iv: Seq<u8>) -> Result<Seq<u8>, Error> {
        match self {
            Cipher::Aes128_Cbc => software::aes128cbc_decryption(src, key, iv),
            Cipher::Aes192_Cbc => software::aes192cbc_decryption(src, key, iv),
            Cipher::Aes256_Cbc => software::aes256cbc_decryption(src, key, iv),
            Cipher::Aes128_Ctr => software::aes128ctr_transform(src, key, iv),
            Cipher::Aes192_Ctr => software::aes192ctr_transform(src, key, iv),
            Cipher::Aes256_Ctr => software::aes256ctr_transform(src, key, iv),
            Cipher::TDes_Cbc => software::tdescbc_decryption(src, key, iv),
            Cipher::Null => Ok(src),
        }
    }

    /// Encrypts `src` under `key` and `iv`. `Null` returns the source as it
    /// is, whatever the key and the IV hold. For the others, decrypting the
    /// output under the same key and IV gives the source back.
    pub fn encrypt(self, src: &[u8], key: &[u8], iv: &[u8]) -> (res: Result<Vec<u8>, Error>)
        ensures
            outcome(res) == self.encryption(src@, key@, iv@),
            self == Cipher::Null ==> outcome(res) == Ok::<Seq<u8>, Error>(src@),
            res is Ok <==> self.can_encrypt(src@.len(), key@.len(), iv@.len()),
            res matches Ok(out) ==> out@ == self.ciphertext(src@, key@, iv@),
            res matches Ok(out) ==> out@.len() == self.encrypted_len(src@.len()),
            res matches Ok(out) ==> self.decryption(out@, key@, iv@) == Ok::<Seq<u8>, Error>(src@),
    {
        match self {
            Cipher::Aes128_Cbc => software::aes128cbc_encrypt(src, key, iv),
            Cipher::Aes192_Cbc => software::aes192cbc_encrypt(src, key, iv),
            Cipher::Aes256_Cbc => software::aes256cbc_encrypt(src, key, iv),
            Cipher::Aes128_Ctr => software::aes128ctr_encrypt(src, key, iv),
            Cipher::Aes192_Ctr => software::aes192ctr_encrypt(src, key, iv),
            Cipher::Aes256_Ctr => software::aes256ctr_encrypt(src, key, iv),
            Cipher::TDes_Cbc => software::tdescbc_encrypt(src, key, iv),
            Cipher::Null => Ok(slice_to_vec(src)),
        }
    }

    /// Decrypts `src` under `key` and `iv`. `Null` returns the source as it
    /// is. A key or an IV of the wrong length is refused before the source is
    /// looked at. With the right lengths a stream cipher always succeeds; a
    /// block cipher refuses a source that is not a whole number of blocks or
    /// does not end in padding, and strips at least one byte of padding from
    /// what it accepts. A source that decrypts to some bytes, and is as long
    /// as their encryption is, is their encryption: no other source of that
    /// length decrypts to them.
    pub fn decrypt(self, src: &[u8], key: &[u8], iv: &[u8]) -> (res: Result<Vec<u8>, Error>)
        ensures
            outcome(res) == self.decryption(src@, key@, iv@),
            self == Cipher::Null ==> outcome(res) == Ok::<Seq<u8>, Error>(src@),
            !self.takes(key@.len(), iv@.len()) ==> res == Err::<Vec<u8>, Error>(
                Error::CryptoFailure(Failure::KeyIvLength),
            ),
            !self.is_cbc() ==> (res is Ok <==> self.takes(key@.len(), iv@.len())),
            res matches Ok(out) ==> if self.is_cbc() {
                src@.len() % (self.spec_block_size() as nat) == 0 && out@.len() < src@.len()
            } else {
                out@.len() == src@.len()
            },
            res matches Ok(out) ==> (src@.len() == self.encrypted_len(out@.len()) ==> src@
                == self.ciphertext(out@, key@, iv@)),
    {
        match self {
            Cipher::Aes128_Cbc => software::aes128cbc_decrypt(src, key, iv),
            Cipher::Aes192_Cbc => software::aes192cbc_decrypt(src, key, iv),
            Cipher::Aes256_Cbc => software::aes256cbc_decrypt(src, key, iv),
            Cipher::Aes128_Ctr => software::aes128ctr_decrypt(src, key, iv),
            Cipher::Aes192_Ctr => software::aes192ctr_decrypt(src, key, iv),
            Cipher::Aes256_Ctr => software::aes256ctr_decrypt(src, key, iv),
            Cipher::TDes_Cbc => software::tdescbc_decrypt(src, key, iv),
            Cipher::Null => Ok(slice_to_vec(src)),
        }
    }

    /// Whether `s` names this cipher: its canonical name, or for AES-256-CBC
    /// also the name it had under an older convention.
    pub open spec fn accepts(self, s: Seq<char>) -> bool {
        s == self.spec_name() || (self == Cipher::Aes256_Cbc && s == "rijndael-cbc@lysator.liu.se"@)
    }

    /// The cipher that `s` names, if there is one.
    pub open spec fn named(s: Seq<char>) -> Option<Cipher> {
        if exists|k: Cipher| k.accepts(s) {
            Some(choose|k: Cipher| k.accepts(s))
        } else {
            None
        }
    }

    /// Looks a cipher up by name. The match is exact and case-sensitive.
    pub fn parse(s: &str) -> (res: Result<Cipher, Error>)
        ensures
            res == match Cipher::named(s@) {
                Some(k) => Ok::<Cipher, Error>(k),
                None => Err::<Cipher, Error>(Error::UnsupportedCipher),
            },
            res matches Ok(k) ==> k.accepts(s@),
            res is Err ==> forall|k: Cipher| !k.accepts(s@),
    {
        let found = if str_eq(s, "3des-cbc") {
            Some(Cipher::TDes_Cbc)
        } else if str_eq(s, "aes128-cbc") {
            Some(Cipher::Aes128_Cbc)
        } else if str_eq(s, "aes192-cbc") {
            Some(Cipher::Aes192_Cbc)
        } else if str_eq(s, "aes256-cbc") || str_eq(s, "rijndael-cbc@lysator.liu.se") {
            Some(Cipher::Aes256_Cbc)
        } else if str_eq(s, "aes128-ctr") {
            Some(Cipher::Aes128_Ctr)
        } else if str_eq(s, "aes192-ctr") {
            Some(Cipher::Aes192_Ctr)
        } else if str_eq(s, "aes256-ctr") {
            Some(Cipher::Aes256_Ctr)
        } else if str_eq(s, "none") {
            Some(Cipher::Null)
        } else {
            None
        };
        match found {
            Some(k) => {
                proof {
                    assert(k.accepts(s@));
                    lemma_one_cipher_per_name(k, choose|c: Cipher| c.accepts(s@), s@);
                }
                Ok(k)
            },
            None => {
                assert(forall|k: Cipher| !k.accepts(s@));
                Err(Error::UnsupportedCipher)
            },
        }
    }
}

impl FromStr for Cipher {
    type Err = Error;

    fn from_str(s: &str) -> (res: Result<Cipher, Error>)
        ensures
            res == match Cipher::named(s@) {
                Some(k) => Ok::<Cipher, Error>(k),
                None => Err::<Cipher, Error>(Error::UnsupportedCipher),
            },
    {
        Cipher::parse(s)
    }
}

/// Whether two byte slices hold the same bytes.
fn bytes_eq(a: &[u8], b: &[u8]) -> (r: bool)
    ensures
        r == (a@ == b@),
{
    if a.len() != b.len() {
        return false;
    }
    let mut i: usize = 0;
    while i < a.len()
        invariant
            a@.len() == b@.len(),
            i <= a@.len(),
            forall|j: int| 0 <= j < i ==> a@[j] == b@[j],
        decreases a@.len() - i,
    {
        if a[i] != b[i] {
            return false;
        }
        i += 1;
    }
    assert(a@ =~= b@);
    true
}

/// Whether two strings hold the same characters.
fn str_eq(a: &str, b: &str) -> (r: bool)
    ensures
        r == (a@ == b@),
{
    proof {
        encode_utf8_decode_utf8(a@);
        encode_utf8_decode_utf8(b@);
    }
    bytes_eq(a.as_bytes(), b.as_bytes())
}

/// No string names two ciphers.
pub proof fn lemma_one_cipher_per_name(a: Cipher, b: Cipher, s: Seq<char>)
    requires
        a.accepts(s),
        b.accepts(s),
    ensures
        a == b,
{
    reveal_strlit("aes128-cbc");
    reveal_strlit("aes192-cbc");
    reveal_strlit("aes256-cbc");
    reveal_strlit("aes128-ctr");
    reveal_strlit("aes192-ctr");
    reveal_strlit("aes256-ctr");
    reveal_strlit("3des-cbc");
    reveal_strlit("none");
    reveal_strlit("rijndael-cbc@lysator.liu.se");
    // Names of one length differ in the key size or in the mode.
    assert("aes128-cbc"@.len() == 10 && "aes128-cbc"@[4] == '2' && "aes128-cbc"@[8] == 'b');
    assert("aes192-cbc"@.len() == 10 && "aes192-cbc"@[4] == '9' && "aes192-cbc"@[8] == 'b');
    assert("aes256-cbc"@.len() == 10 && "aes256-cbc"@[4] == '5' && "aes256-cbc"@[8] == 'b');
    assert("aes128-ctr"@.len() == 10 && "aes128-ctr"@[4] == '2' && "aes128-ctr"@[8] == 't');
    assert("aes192-ctr"@.len() == 10 && "aes192-ctr"@[4] == '9' && "aes192-ctr"@[8] == 't');
    assert("aes256-ctr"@.len() == 10 && "aes256-ctr"@[4] == '5' && "aes256-ctr"@[8] == 't');
    assert("3des-cbc"@.len() == 8);
    assert("none"@.len() == 4);
    assert("rijndael-cbc@lysator.liu.se"@.len() == 27);
}

/// Every cipher but `Null` has a key, an IV and a block of at least one byte.
pub proof fn lemma_sizes_positive(kind: Cipher)
    requires
        kind != Cipher::Null,
    ensures
        kind.spec_key_len() > 0,
        kind.spec_iv_len() > 0,
        kind.spec_block_size() > 0,
        kind.spec_iv_len() == kind.spec_block_size(),
{
}

/// Looking a cipher up by its canonical name gives that cipher back.
pub proof fn lemma_name_round_trip(kind: Cipher)
    ensures
        Cipher::named(kind.spec_name()) == Some(kind),
{
    assert(kind.accepts(kind.spec_name()));
    lemma_one_cipher_per_name(
        kind,
        choose|k: Cipher| k.accepts(kind.spec_name()),
        kind.spec_name(),
    );
}

} // verus!
