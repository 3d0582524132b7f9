use aes_ctr::cipher::stream::InvalidKeyNonceLength;
use block_modes::{BlockModeError, InvalidKeyIvLength};
use symcipher::software::{
    aes128cbc_decrypt, aes128cbc_encrypt, aes128ctr_decrypt, aes128ctr_encrypt, aes192cbc_decrypt,
    aes192cbc_encrypt, aes192ctr_decrypt, aes192ctr_encrypt, aes256cbc_decrypt, aes256cbc_encrypt,
    aes256ctr_decrypt, aes256ctr_encrypt, applied_or_failure, can_pad, decrypted_or_failure,
    encrypted_or_failure, tdescbc_decrypt, tdescbc_encrypt,
};
use symcipher::{Cipher, Error, Failure};

const KINDS: [Cipher; 7] = [
    Cipher::Aes128_Cbc,
    Cipher::Aes192_Cbc,
    Cipher::Aes256_Cbc,
    Cipher::Aes128_Ctr,
    Cipher::Aes192_Ctr,
    Cipher::Aes256_Ctr,
    Cipher::TDes_Cbc,
];

const CBC: [Cipher; 4] = [Cipher::Aes128_Cbc, Cipher::Aes192_Cbc, Cipher::Aes256_Cbc, Cipher::TDes_Cbc];

const CTR: [Cipher; 3] = [Cipher::Aes128_Ctr, Cipher::Aes192_Ctr, Cipher::Aes256_Ctr];

const BAD_LENGTH: Error = Error::CryptoFailure(Failure::KeyIvLength);

fn key_for(kind: Cipher) -> Vec<u8> {
    (0..kind.key_len()).map(|i| (i * 7 + 3) as u8).collect()
}

fn iv_for(kind: Cipher) -> Vec<u8> {
    (0..kind.iv_len()).map(|i| (i * 13 + 1) as u8).collect()
}

fn source(len: usize) -> Vec<u8> {
    (0..len).map(|i| (i * 31 + 5) as u8).collect()
}

#[test]
fn aes128_cbc_known_answer() {
    let key = b"\x00\x01\x02\x03\x04\x05\x06\x07\x08\x09\x0A\x0B\x0C\x0D\x0E\x0F";
    let iv = b"\x00\x01\x02\x03\x04\x05\x06\x07\x00\x01\x02\x03\x04\x05\x06\x07";
    let expected = b"\xB4\xB9\xE7\x30\xD6\xD6\xF7\xDE\x77\x3F\x1C\xFF\xB3\x3E\x44\x5A\
                     \x91\xD7\x27\x62\x87\x4D\xFB\x3C\x5E\xC4\x59\x72\x4A\xF4\x7C\xA1";
    let out = aes128cbc_encrypt(b"Some Crypto Text", key, iv).unwrap();
    assert_eq!(out, expected.to_vec());
    assert_eq!(aes128cbc_decrypt(&out, key, iv).unwrap(), b"Some Crypto Text".to_vec());
    assert_eq!(Cipher::Aes128_Cbc.encrypt(b"Some Crypto Text", key, iv).unwrap(), expected.to_vec());
}

#[test]
fn aes128_ctr_known_answer() {
    let out = aes128ctr_encrypt(&[1, 2, 3, 4, 5, 6, 7], b"very secret key.", b"and secret nonce").unwrap();
    assert_eq!(out, vec![6, 245, 126, 124, 180, 146, 37]);
    let back = aes128ctr_decrypt(&out, b"very secret key.", b"and secret nonce").unwrap();
    assert_eq!(back, vec![1, 2, 3, 4, 5, 6, 7]);
}

#[test]
fn decrypt_undoes_encrypt() {
    for kind in KINDS {
        let key = key_for(kind);
        let iv = iv_for(kind);
        for len in [0usize, 1, 7, 8, 15, 16, 17, 31, 32, 33, 100, 1000] {
            let src = source(len);
            let out = kind.encrypt(&src, &key, &iv).unwrap();
            assert_eq!(kind.decrypt(&out, &key, &iv), Ok(src), "{:?} {}", kind, len);
        }
    }
}

#[test]
fn encrypt_changes_the_bytes() {
    for kind in KINDS {
        let src = source(48);
        let out = kind.encrypt(&src, &key_for(kind), &iv_for(kind)).unwrap();
        assert_ne!(&out[..48], &src[..], "{:?}", kind);
        if kind != Cipher::TDes_Cbc && !CTR.contains(&kind) {
            assert_ne!(kind.decrypt(&src, &key_for(kind), &iv_for(kind)), Ok(src.clone()));
        }
    }
}

#[test]
fn null_hands_the_source_back() {
    let src = source(37);
    for (key, iv) in [(vec![], vec![]), (vec![1u8; 3], vec![2u8; 99]), (vec![0u8; 16], vec![0u8; 16])] {
        assert_eq!(Cipher::Null.encrypt(&src, &key, &iv), Ok(src.clone()));
        assert_eq!(Cipher::Null.decrypt(&src, &key, &iv), Ok(src.clone()));
    }
    assert_eq!(Cipher::Null.encrypt(&[], &[], &[]), Ok(vec![]));
}

#[test]
fn cbc_pads_to_the_next_block() {
    for kind in CBC {
        let block = kind.block_size();
        for len in [0usize, 1, block - 1, block, block + 1, 2 * block, 5 * block + 3] {
            let out = kind.encrypt(&source(len), &key_for(kind), &iv_for(kind)).unwrap();
            assert_eq!(out.len(), (len / block + 1) * block, "{:?} {}", kind, len);
        }
    }
}

#[test]
fn cbc_pads_aligned_input_by_a_whole_block() {
    assert_eq!(aes128cbc_encrypt(&source(32), &[7; 16], &[9; 16]).unwrap().len(), 48);
    assert_eq!(aes192cbc_encrypt(&source(32), &[7; 24], &[9; 16]).unwrap().len(), 48);
    assert_eq!(aes256cbc_encrypt(&source(32), &[7; 32], &[9; 16]).unwrap().len(), 48);
    assert_eq!(tdescbc_encrypt(&source(32), &[7; 24], &[9; 8]).unwrap().len(), 40);
    assert_eq!(tdescbc_encrypt(&[], &[7; 24], &[9; 8]).unwrap().len(), 8);
}

#[test]
fn ctr_keeps_the_length() {
    for kind in CTR {
        for len in [0usize, 1, 15, 16, 17, 64, 1001] {
            let out = kind.encrypt(&source(len), &key_for(kind), &iv_for(kind)).unwrap();
            assert_eq!(out.len(), len);
            let back = kind.decrypt(&source(len), &key_for(kind), &iv_for(kind)).unwrap();
            assert_eq!(back.len(), len);
        }
    }
    assert_eq!(aes192ctr_encrypt(&[], &[1; 24], &[2; 16]), Ok(vec![]));
    assert_eq!(aes256ctr_encrypt(&[], &[1; 32], &[2; 16]), Ok(vec![]));
}

#[test]
fn ctr_encrypt_and_decrypt_are_one_transform() {
    let src = source(50);
    assert_eq!(aes128ctr_encrypt(&src, &[3; 16], &[4; 16]), aes128ctr_decrypt(&src, &[3; 16], &[4; 16]));
    assert_eq!(aes192ctr_encrypt(&src, &[3; 24], &[4; 16]), aes192ctr_decrypt(&src, &[3; 24], &[4; 16]));
    assert_eq!(aes256ctr_encrypt(&src, &[3; 32], &[4; 16]), aes256ctr_decrypt(&src, &[3; 32], &[4; 16]));
    let once = aes256ctr_encrypt(&src, &[3; 32], &[4; 16]).unwrap();
    assert_ne!(once, src);
    assert_eq!(aes256ctr_encrypt(&once, &[3; 32], &[4; 16]), Ok(src));
}

#[test]
fn wrong_key_or_iv_length_is_a_failure() {
    for kind in KINDS {
        let key = key_for(kind);
        let iv = iv_for(kind);
        let src = source(kind.block_size() * 2);
        let cases: [(&[u8], &[u8]); 6] = [
            (&key[1..], &iv),
            (&key, &iv[1..]),
            (&[], &iv),
            (&key, &[]),
            (&[0u8; 33], &iv),
            (&key, &[0u8; 17]),
        ];
        for (k, i) in cases {
            assert_eq!(kind.encrypt(&src, k, i), Err(BAD_LENGTH), "{:?}", kind);
            assert_eq!(kind.decrypt(&src, k, i), Err(BAD_LENGTH), "{:?}", kind);
        }
    }
}

#[test]
fn each_cipher_takes_only_its_own_key_length() {
    let src = source(16);
    assert_eq!(aes128cbc_encrypt(&src, &[0; 24], &[0; 16]), Err(BAD_LENGTH));
    assert_eq!(aes192cbc_encrypt(&src, &[0; 16], &[0; 16]), Err(BAD_LENGTH));
    assert_eq!(aes256cbc_encrypt(&src, &[0; 24], &[0; 16]), Err(BAD_LENGTH));
    assert_eq!(tdescbc_encrypt(&src, &[0; 16], &[0; 8]), Err(BAD_LENGTH));
    assert_eq!(tdescbc_encrypt(&src, &[0; 24], &[0; 16]), Err(BAD_LENGTH));
    assert_eq!(aes128ctr_encrypt(&src, &[0; 32], &[0; 16]), Err(BAD_LENGTH));
    assert_eq!(aes192ctr_encrypt(&src, &[0; 16], &[0; 16]), Err(BAD_LENGTH));
    assert_eq!(aes256ctr_encrypt(&src, &[0; 16], &[0; 16]), Err(BAD_LENGTH));
    assert_eq!(aes128cbc_decrypt(&src, &[0; 24], &[0; 16]), Err(BAD_LENGTH));
    assert_eq!(aes192cbc_decrypt(&src, &[0; 16], &[0; 16]), Err(BAD_LENGTH));
    assert_eq!(aes256cbc_decrypt(&src, &[0; 24], &[0; 16]), Err(BAD_LENGTH));
    assert_eq!(tdescbc_decrypt(&src, &[0; 16], &[0; 8]), Err(BAD_LENGTH));
    assert_eq!(aes128ctr_decrypt(&src, &[0; 32], &[0; 16]), Err(BAD_LENGTH));
    assert_eq!(aes192ctr_decrypt(&src, &[0; 16], &[0; 16]), Err(BAD_LENGTH));
    assert_eq!(aes256ctr_decrypt(&src, &[0; 16], &[0; 16]), Err(BAD_LENGTH));
}

#[test]
fn cbc_refuses_a_partial_block() {
    let malformed = Error::CryptoFailure(Failure::Malformed);
    for kind in CBC {
        let block = kind.block_size();
        for len in [1usize, block - 1, block + 1, 3 * block + 2] {
            assert_eq!(
                kind.decrypt(&source(len), &key_for(kind), &iv_for(kind)),
                Err(malformed),
                "{:?} {}",
                kind,
                len
            );
        }
        assert_eq!(kind.decrypt(&[], &key_for(kind), &iv_for(kind)), Err(malformed));
    }
}

#[test]
fn corrupted_final_block_fails_the_padding() {
    let malformed = Error::CryptoFailure(Failure::Malformed);
    for kind in CBC {
        let key = key_for(kind);
        let iv = iv_for(kind);
        let src = source(20);
        let mut out = kind.encrypt(&src, &key, &iv).unwrap();
        let last = out.len() - 1;
        out[last] ^= 0x01;
        assert_eq!(kind.decrypt(&out, &key, &iv), Err(malformed), "{:?}", kind);
    }
}

#[test]
fn decrypted_bytes_are_shorter_than_the_ciphertext() {
    let out = aes256cbc_encrypt(&source(16), &[5; 32], &[6; 16]).unwrap();
    let back = aes256cbc_decrypt(&out, &[5; 32], &[6; 16]).unwrap();
    assert_eq!(out.len(), 32);
    assert_eq!(back.len(), 16);
    assert_eq!(aes192cbc_decrypt(&aes192cbc_encrypt(&[], &[5; 24], &[6; 16]).unwrap(), &[5; 24], &[6; 16]), Ok(vec![]));
}

#[test]
fn key_and_iv_both_matter() {
    for kind in KINDS {
        let src = source(40);
        let key = key_for(kind);
        let iv = iv_for(kind);
        let mut other_key = key.clone();
        other_key[0] ^= 0x80;
        let mut other_iv = iv.clone();
        other_iv[0] ^= 0x80;
        let out = kind.encrypt(&src, &key, &iv).unwrap();
        assert_ne!(kind.encrypt(&src, &other_key, &iv).unwrap(), out, "{:?}", kind);
        assert_ne!(kind.encrypt(&src, &key, &other_iv).unwrap(), out, "{:?}", kind);
    }
}

#[test]
fn padding_needs_room_below_the_largest_allocation() {
    let max = isize::MAX as usize;
    assert!(can_pad(0, 16));
    assert!(can_pad(max - 16, 16));
    assert!(!can_pad(max - 15, 16));
    assert!(can_pad(max - 8, 8));
    assert!(!can_pad(max - 7, 8));
    assert!(!can_pad(usize::MAX, 16));
    assert!(!can_pad(max, 1));
    assert!(can_pad(max, 0));
}

#[test]
fn outcomes_of_the_block_mode_become_failures() {
    assert_eq!(encrypted_or_failure(Ok(vec![1, 2, 3])), Ok(vec![1, 2, 3]));
    assert_eq!(encrypted_or_failure(Err(InvalidKeyIvLength)), Err(BAD_LENGTH));
    assert_eq!(decrypted_or_failure(Ok(Ok(vec![4, 5]))), Ok(vec![4, 5]));
    assert_eq!(decrypted_or_failure(Ok(Err(BlockModeError))), Err(Error::CryptoFailure(Failure::Malformed)));
    assert_eq!(decrypted_or_failure(Err(InvalidKeyIvLength)), Err(BAD_LENGTH));
    assert_eq!(applied_or_failure(Ok(()), vec![6, 7]), Ok(vec![6, 7]));
    assert_eq!(applied_or_failure(Err(InvalidKeyNonceLength), vec![6, 7]), Err(BAD_LENGTH));
}

#[test]
fn changed_ciphertext_never_gives_the_plaintext() {
    for kind in KINDS {
        let key = key_for(kind);
        let iv = iv_for(kind);
        let src = source(37);
        let out = kind.encrypt(&src, &key, &iv).unwrap();
        for at in 0..out.len() {
            for bit in [0x01u8, 0x10, 0x80] {
                let mut changed = out.clone();
                changed[at] ^= bit;
                assert_ne!(kind.decrypt(&changed, &key, &iv), Ok(src.clone()), "{:?} {}", kind, at);
            }
        }
    }
}

#[test]
fn ctr_adds_a_keystream_place_by_place() {
    for kind in CTR {
        let key = key_for(kind);
        let iv = iv_for(kind);
        let keystream = kind.encrypt(&[0u8; 70], &key, &iv).unwrap();
        assert_ne!(keystream, vec![0u8; 70]);
        for len in [1usize, 16, 33, 70] {
            let src = source(len);
            let out = kind.encrypt(&src, &key, &iv).unwrap();
            let expected: Vec<u8> = src.iter().zip(&keystream).map(|(byte, k)| byte ^ k).collect();
            assert_eq!(out, expected, "{:?} {}", kind, len);
        }
    }
}
