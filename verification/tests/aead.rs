use securecomm_crypto::aead::within_cipher_limit;
use securecomm_crypto::primitives::{MAX_CIPHERTEXT_LEN, MAX_PLAINTEXT_LEN};
use securecomm_crypto::{aead_decrypt, aead_encrypt, CryptoError};

fn unhex(text: &str) -> Vec<u8> {
    let digits: Vec<u8> = text
        .bytes()
        .map(|c| match c {
            b'0'..=b'9' => c - b'0',
            b'a'..=b'f' => c - b'a' + 10,
            _ => panic!("not a hex digit"),
        })
        .collect();
    digits.chunks(2).map(|pair| pair[0] * 16 + pair[1]).collect()
}

#[test]
fn aead_encrypt_matches_the_rfc_8439_vector() {
    let mut key = [0u8; 32];
    for (i, byte) in key.iter_mut().enumerate() {
        *byte = 0x80 + i as u8;
    }
    let nonce: [u8; 12] = [0x07, 0, 0, 0, 0x40, 0x41, 0x42, 0x43, 0x44, 0x45, 0x46, 0x47];
    let aad = unhex("50515253c0c1c2c3c4c5c6c7");
    let plaintext = b"Ladies and Gentlemen of the class of '99: If I could offer you only one tip for the future, sunscreen would be it.";
    let expected = unhex(
        "d31a8d34648e60db7b86afbc53ef7ec2a4aded51296e08fea9e2b5a736ee62d63dbea45e8ca9671282fafb69da92728b1a71de0a9e060b2905d6a5b67ecd3b3692ddbd7f2d778b8c9803aee328091b58fab324e4fad675945585808b4831d7bc3ff4def08e4b7a9de576d26586cec64b61161ae10b594f09e26a7e902ecbd0600691",
    );
    let ciphertext = aead_encrypt(&key, &nonce, plaintext, &aad);
    assert_eq!(ciphertext, expected);
    assert_eq!(aead_decrypt(&key, &nonce, &expected, &aad), Ok(plaintext.to_vec()));
}

#[test]
fn aead_encrypt_gives_the_known_ciphertext() {
    let ciphertext = aead_encrypt(&[7u8; 32], &[9u8; 12], b"secret-message", b"header");
    assert_eq!(
        ciphertext,
        unhex("8f1c98a5817aa8c8b81b7d59a7822fa1f51cc1061f34ee65729fc3d26fe9")
    );
}

#[test]
fn aead_ciphertext_is_plaintext_length_plus_tag() {
    for len in [0usize, 1, 15, 16, 17, 63, 64, 65, 1000] {
        let plaintext = vec![0xabu8; len];
        let ciphertext = aead_encrypt(&[1u8; 32], &[2u8; 12], &plaintext, b"");
        assert_eq!(ciphertext.len(), len + 16);
        assert_eq!(aead_decrypt(&[1u8; 32], &[2u8; 12], &ciphertext, b""), Ok(plaintext));
    }
}

#[test]
fn aead_decrypt_rejects_every_flipped_bit() {
    let key = [7u8; 32];
    let nonce = [9u8; 12];
    let ciphertext = aead_encrypt(&key, &nonce, b"secret-message", b"header");
    for byte in 0..ciphertext.len() {
        for bit in 0..8 {
            let mut tampered = ciphertext.clone();
            tampered[byte] ^= 1 << bit;
            assert_eq!(
                aead_decrypt(&key, &nonce, &tampered, b"header"),
                Err(CryptoError::AuthenticationFailed)
            );
        }
    }
}

#[test]
fn aead_decrypt_rejects_a_wrong_key_nonce_or_header() {
    let key = [7u8; 32];
    let nonce = [9u8; 12];
    let ciphertext = aead_encrypt(&key, &nonce, b"secret-message", b"header");
    let mut other_key = key;
    other_key[31] ^= 1;
    let mut other_nonce = nonce;
    other_nonce[0] ^= 0x80;
    assert_eq!(
        aead_decrypt(&other_key, &nonce, &ciphertext, b"header"),
        Err(CryptoError::AuthenticationFailed)
    );
    assert_eq!(
        aead_decrypt(&key, &other_nonce, &ciphertext, b"header"),
        Err(CryptoError::AuthenticationFailed)
    );
    assert_eq!(
        aead_decrypt(&key, &nonce, &ciphertext, b"headfr"),
        Err(CryptoError::AuthenticationFailed)
    );
    assert_eq!(
        aead_decrypt(&key, &nonce, &ciphertext, b""),
        Err(CryptoError::AuthenticationFailed)
    );
}

#[test]
fn aead_decrypt_rejects_input_shorter_than_a_tag() {
    for len in 0..16 {
        let short = vec![0u8; len];
        assert_eq!(
            aead_decrypt(&[7u8; 32], &[9u8; 12], &short, b""),
            Err(CryptoError::AuthenticationFailed)
        );
    }
}

#[test]
fn crypto_error_fatality() {
    assert!(CryptoError::NonceExhausted.is_fatal());
    assert!(CryptoError::ChannelClosed.is_fatal());
    assert!(!CryptoError::AuthenticationFailed.is_fatal());
    assert!(!CryptoError::ReplayDetected.is_fatal());
    assert!(!CryptoError::InvalidPublicKey.is_fatal());
}

#[test]
fn the_cipher_s_limit_is_its_keystream_less_two_blocks() {
    assert_eq!(MAX_PLAINTEXT_LEN, 64 * (u32::MAX as u64 - 1));
    assert_eq!(MAX_CIPHERTEXT_LEN, MAX_PLAINTEXT_LEN + 16);
    assert!(within_cipher_limit(&[]));
    assert!(within_cipher_limit(&[0u8; 1000]));
}

#[test]
fn a_released_plaintext_seals_to_the_ciphertext_it_came_from() {
    let key = [7u8; 32];
    let nonce = [9u8; 12];
    for len in [0usize, 1, 14, 64, 200] {
        let ciphertext = aead_encrypt(&key, &nonce, &vec![0x5au8; len], b"header");
        let released = aead_decrypt(&key, &nonce, &ciphertext, b"header").unwrap();
        assert_eq!(aead_encrypt(&key, &nonce, &released, b"header"), ciphertext);
    }
}
