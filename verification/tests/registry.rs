use std::str::FromStr;
use symcipher::{Cipher, Error, Failure};

const ALL: [Cipher; 8] = [
    Cipher::Aes128_Cbc,
    Cipher::Aes192_Cbc,
    Cipher::Aes256_Cbc,
    Cipher::Aes128_Ctr,
    Cipher::Aes192_Ctr,
    Cipher::Aes256_Ctr,
    Cipher::TDes_Cbc,
    Cipher::Null,
];

#[test]
fn sizes_match_the_standards() {
    let expected: [(Cipher, usize, usize, usize); 8] = [
        (Cipher::Aes128_Cbc, 16, 16, 16),
        (Cipher::Aes192_Cbc, 24, 16, 16),
        (Cipher::Aes256_Cbc, 32, 16, 16),
        (Cipher::Aes128_Ctr, 16, 16, 16),
        (Cipher::Aes192_Ctr, 24, 16, 16),
        (Cipher::Aes256_Ctr, 32, 16, 16),
        (Cipher::TDes_Cbc, 24, 8, 8),
        (Cipher::Null, 0, 0, 0),
    ];
    for (kind, key_len, iv_len, block_size) in expected {
        assert_eq!(kind.key_len(), key_len);
        assert_eq!(kind.iv_len(), iv_len);
        assert_eq!(kind.block_size(), block_size);
    }
}

#[test]
fn sizes_are_positive_unless_null() {
    for kind in ALL {
        if kind != Cipher::Null {
            assert!(kind.key_len() > 0);
            assert!(kind.iv_len() > 0);
            assert!(kind.block_size() > 0);
        }
    }
}

#[test]
fn names_are_the_canonical_strings() {
    assert_eq!(Cipher::Aes128_Cbc.name(), "aes128-cbc");
    assert_eq!(Cipher::Aes192_Cbc.name(), "aes192-cbc");
    assert_eq!(Cipher::Aes256_Cbc.name(), "aes256-cbc");
    assert_eq!(Cipher::Aes128_Ctr.name(), "aes128-ctr");
    assert_eq!(Cipher::Aes192_Ctr.name(), "aes192-ctr");
    assert_eq!(Cipher::Aes256_Ctr.name(), "aes256-ctr");
    assert_eq!(Cipher::TDes_Cbc.name(), "3des-cbc");
    assert_eq!(Cipher::Null.name(), "none");
}

#[test]
fn only_null_is_null() {
    for kind in ALL {
        assert_eq!(kind.is_null(), kind == Cipher::Null);
    }
    assert!(Cipher::Null.is_null());
    assert!(!Cipher::Aes128_Cbc.is_null());
}

#[test]
fn parse_gives_back_the_named_cipher() {
    for kind in ALL {
        assert_eq!(Cipher::parse(kind.name()), Ok(kind));
        assert_eq!(Cipher::from_str(kind.name()), Ok(kind));
    }
}

#[test]
fn legacy_alias_is_aes256_cbc() {
    assert_eq!(Cipher::parse("rijndael-cbc@lysator.liu.se"), Ok(Cipher::Aes256_Cbc));
    assert_eq!("rijndael-cbc@lysator.liu.se".parse::<Cipher>(), Ok(Cipher::Aes256_Cbc));
}

#[test]
fn unknown_name_is_unsupported() {
    assert_eq!(Cipher::parse("not-a-cipher"), Err(Error::UnsupportedCipher));
    assert_eq!("not-a-cipher".parse::<Cipher>(), Err(Error::UnsupportedCipher));
}

#[test]
fn lookup_is_exact_and_case_sensitive() {
    for name in ["", "AES128-CBC", "aes128-cbc ", " aes128-cbc", "aes128_cbc", "aes128-cb", "None", "nonе"] {
        assert_eq!(Cipher::parse(name), Err(Error::UnsupportedCipher), "{:?}", name);
    }
    assert_eq!(Cipher::parse("Rijndael-cbc@lysator.liu.se"), Err(Error::UnsupportedCipher));
}

#[test]
fn errors_tell_lookup_from_transform() {
    let lookup = Error::UnsupportedCipher;
    let transform = Error::CryptoFailure(Failure::KeyIvLength);
    assert!(lookup.is_unsupported_cipher());
    assert!(!transform.is_unsupported_cipher());
    assert_eq!(lookup.failure(), None);
    assert_eq!(transform.failure(), Some(Failure::KeyIvLength));
    assert_ne!(lookup, transform);
}
