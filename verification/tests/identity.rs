use securecomm_crypto::identity::{peer_id_of, verify_bytes};
use securecomm_crypto::{
    ed25519_generate, sign, verify, IdentityKeyPair, PeerId, Signature, SigningKey, VerifyingKey,
};

fn unhex(text: &str) -> Vec<u8> {
    let digits: Vec<u8> = text
        .bytes()
        .map(|c| match c {
            b'0'..=b'9' => c - b'0',
            b'a'..=b'f' => c - b'a' + 10,
            _ => panic!("not a hex digit"),
        })
        .collect();
    digits.chunks(2).map(|pair| pair[0] * 16 + pair[1]).collect()
}

fn array32(text: &str) -> [u8; 32] {
    unhex(text).try_into().unwrap()
}

const RFC_SECRET: &str = "9d61b19deffd5a60ba844af492ec2cc44449c5697b326919703bac031cae7f60";
const RFC_PUBLIC: &str = "d75a980182b10ab7d54bfed3c964073a0ee172f3daa62325af021a68f707511a";
const RFC_SIGNATURE: &str = "e5564300c360ac729086e2cc806e828a84877f1eb8e5d974d873e065224901555fb8821590a33bacc61e39701cf9b46bd25bf5f0595bbe24655141438e7a100b";

#[test]
fn verifying_key_matches_the_rfc_8032_vector() {
    let signing = SigningKey::from_bytes(array32(RFC_SECRET));
    assert_eq!(signing.verifying_key().to_bytes(), array32(RFC_PUBLIC));
    assert_eq!(signing.to_bytes(), array32(RFC_SECRET));
}

#[test]
fn sign_matches_the_rfc_8032_vector() {
    let signing = SigningKey::from_bytes(array32(RFC_SECRET));
    let signature = sign(&signing, b"");
    assert_eq!(signature.to_bytes().to_vec(), unhex(RFC_SIGNATURE));
    let verifying = VerifyingKey::from_bytes(array32(RFC_PUBLIC));
    assert!(verify(&verifying, b"", &signature));
}

#[test]
fn sign_gives_the_known_signature_on_a_message() {
    let signing = SigningKey::from_bytes(array32(RFC_SECRET));
    let signature = sign(&signing, b"hello securecomm");
    assert_eq!(
        signature.to_bytes().to_vec(),
        unhex("b40c51a4f752b4f3f6e4d3b106839290003570b4ebada847d59058ddf9bf9b6f7d10b3418924a597d8e0c242f5bbedad823099fc892c6ae8004c421d487d2500")
    );
}

#[test]
fn sign_is_deterministic() {
    let (signing, _) = ed25519_generate();
    assert_eq!(sign(&signing, b"same message"), sign(&signing, b"same message"));
}

#[test]
fn generated_keypairs_differ() {
    let (_, first) = ed25519_generate();
    let (_, second) = ed25519_generate();
    assert_ne!(first, second);
}

#[test]
fn verify_accepts_what_the_identity_signed() {
    let identity = IdentityKeyPair::generate();
    for message in [&b""[..], b"a", b"hello securecomm", &[0u8; 1000]] {
        let signature = identity.sign(message);
        assert!(verify(&identity.verifying_key(), message, &signature));
    }
}

#[test]
fn verify_rejects_another_message() {
    let identity = IdentityKeyPair::generate();
    let signature = identity.sign(b"hello securecomm");
    assert!(!verify(&identity.verifying_key(), b"hello securecomn", &signature));
    assert!(!verify(&identity.verifying_key(), b"hello securecomm ", &signature));
    assert!(!verify(&identity.verifying_key(), b"", &signature));
}

#[test]
fn verify_rejects_another_key() {
    let identity = IdentityKeyPair::generate();
    let other = IdentityKeyPair::generate();
    let signature = identity.sign(b"hello securecomm");
    assert!(!verify(&other.verifying_key(), b"hello securecomm", &signature));
}

#[test]
fn verify_rejects_every_flipped_signature_bit() {
    let signing = SigningKey::from_bytes(array32(RFC_SECRET));
    let verifying = signing.verifying_key();
    let signature = sign(&signing, b"hello securecomm").to_bytes();
    for byte in 0..64 {
        for bit in 0..8 {
            let mut tampered = signature;
            tampered[byte] ^= 1 << bit;
            assert!(!verify(&verifying, b"hello securecomm", &Signature::from_bytes(tampered)));
        }
    }
}

#[test]
fn verify_never_panics_on_arbitrary_keys() {
    let signing = SigningKey::from_bytes(array32(RFC_SECRET));
    let signature = sign(&signing, b"hello securecomm");
    for fill in 0..=255u8 {
        let key = VerifyingKey::from_bytes([fill; 32]);
        assert!(!verify(&key, b"hello securecomm", &signature));
    }
}

#[test]
fn verify_bytes_accepts_a_valid_signature() {
    let public = unhex(RFC_PUBLIC);
    let signature = unhex(RFC_SIGNATURE);
    assert!(verify_bytes(&public, b"", &signature));
    assert!(!verify_bytes(&public, b"x", &signature));
}

#[test]
fn verify_bytes_rejects_malformed_lengths() {
    let public = unhex(RFC_PUBLIC);
    let signature = unhex(RFC_SIGNATURE);
    assert!(!verify_bytes(&public[..31], b"", &signature));
    assert!(!verify_bytes(&[], b"", &signature));
    assert!(!verify_bytes(&public, b"", &signature[..63]));
    assert!(!verify_bytes(&public, b"", &[]));
    let mut long_key = public.clone();
    long_key.push(0);
    assert!(!verify_bytes(&long_key, b"", &signature));
    let mut long_signature = signature.clone();
    long_signature.push(0);
    assert!(!verify_bytes(&public, b"", &long_signature));
}

#[test]
fn keys_and_signatures_are_read_from_slices_of_their_length_only() {
    assert!(VerifyingKey::from_slice(&[1u8; 32]).is_some());
    assert_eq!(VerifyingKey::from_slice(&[1u8; 32]).unwrap().to_bytes(), [1u8; 32]);
    assert_eq!(VerifyingKey::from_slice(&[1u8; 32]).unwrap().as_bytes(), &[1u8; 32]);
    assert!(VerifyingKey::from_slice(&[1u8; 31]).is_none());
    assert!(VerifyingKey::from_slice(&[1u8; 33]).is_none());
    assert!(Signature::from_slice(&[2u8; 64]).is_some());
    assert_eq!(Signature::from_slice(&[2u8; 64]).unwrap().to_bytes(), [2u8; 64]);
    assert!(Signature::from_slice(&[2u8; 63]).is_none());
    assert!(Signature::from_slice(&[2u8; 65]).is_none());
}

#[test]
fn peer_id_is_the_sha256_digest_of_the_verifying_key() {
    let zero_key = VerifyingKey::from_bytes([0u8; 32]);
    assert_eq!(
        peer_id_of(&zero_key).to_bytes(),
        array32("66687aadf862bd776c8fc18b8e9f8e20089714856ee233b3902a591d0d5f2925")
    );
    let identity = IdentityKeyPair::from_signing_key(SigningKey::from_bytes([1u8; 32]));
    assert_eq!(
        identity.verifying_key().to_bytes(),
        array32("8a88e3dd7409f195fd52db2d3cba5d72ca6709bf1d94121bf3748801b40f6f5c")
    );
    assert_eq!(
        identity.peer_id().to_bytes(),
        array32("34750f98bd59fcfc946da45aaabe933be154a4b5094e1c4abf42866505f3c97e")
    );
}

#[test]
fn peer_id_is_stable() {
    let identity = IdentityKeyPair::generate();
    assert_eq!(identity.peer_id(), identity.peer_id());
    assert_eq!(identity.peer_id(), peer_id_of(&identity.verifying_key()));
}

#[test]
fn peer_id_prints_as_lower_case_hex() {
    let identity = IdentityKeyPair::from_signing_key(SigningKey::from_bytes([1u8; 32]));
    assert_eq!(
        identity.peer_id().to_hex(),
        "34750f98bd59fcfc946da45aaabe933be154a4b5094e1c4abf42866505f3c97e"
    );
    let mut bytes = [0u8; 32];
    bytes[0] = 0x0f;
    bytes[1] = 0xf0;
    bytes[2] = 0x9a;
    bytes[31] = 0xff;
    assert_eq!(
        PeerId::from_bytes(bytes).to_hex(),
        "0ff09a00000000000000000000000000000000000000000000000000000000ff"
    );
}

#[test]
fn wiping_a_signing_key_leaves_zeros() {
    let identity = IdentityKeyPair::from_signing_key(SigningKey::from_bytes([1u8; 32]));
    let mut signing = identity.into_signing_key();
    assert_eq!(signing.to_bytes(), [1u8; 32]);
    signing.wipe();
    assert_eq!(signing.to_bytes(), [0u8; 32]);
}
