use securecomm_crypto::bytes::is_all_zero;
use securecomm_crypto::{
    compute_shared_secret, derive_session_key, generate_ephemeral, x25519_generate, CryptoError,
    EphemeralKeyPair, SessionKey, SharedSecret, X25519Public, X25519Secret,
};

fn unhex(text: &str) -> Vec<u8> {
    let digits: Vec<u8> = text
        .bytes()
        .map(|c| match c {
            b'0'..=b'9' => c - b'0',
            b'a'..=b'f' => c - b'a' + 10,
            _ => panic!("not a hex digit"),
        })
        .collect();
    digits.chunks(2).map(|pair| pair[0] * 16 + pair[1]).collect()
}

fn array32(text: &str) -> [u8; 32] {
    unhex(text).try_into().unwrap()
}

const ALICE_SECRET: &str = "77076d0a7318a57d3c16c17251b26645df4c2f87ebc0992ab177fba51db92c2a";
const ALICE_PUBLIC: &str = "8520f0098930a754748b7ddcb43ef75a0dbf3a0d26381af4eba4a98eaa9b4e6a";
const BOB_SECRET: &str = "5dab087e624a8a4b79e17f8b83800ee66f3bb1292618b6fd1c2f8b27ff88e0eb";
const BOB_PUBLIC: &str = "de9edb7d7b7dc1b4d35b61c2ece435373f8343c85b78674dadfc7e146f882b4f";
const SHARED: &str = "4a5d9d5ba4ce2de1728e3bf480350f25e07e21c947d19e3376f09b3c1e161742";

#[test]
fn public_keys_match_the_rfc_7748_vectors() {
    let alice = X25519Secret::from_bytes(array32(ALICE_SECRET));
    let bob = X25519Secret::from_bytes(array32(BOB_SECRET));
    assert_eq!(alice.public_key().to_bytes(), array32(ALICE_PUBLIC));
    assert_eq!(bob.public_key().to_bytes(), array32(BOB_PUBLIC));
    assert_eq!(alice.to_bytes(), array32(ALICE_SECRET));
}

#[test]
fn shared_secret_matches_the_rfc_7748_vector() {
    let alice = X25519Secret::from_bytes(array32(ALICE_SECRET));
    let bob = X25519Secret::from_bytes(array32(BOB_SECRET));
    let alice_public = X25519Public::from_bytes(array32(ALICE_PUBLIC));
    let bob_public = X25519Public::from_bytes(array32(BOB_PUBLIC));
    let from_alice = compute_shared_secret(&alice, &bob_public).ok().unwrap();
    let from_bob = compute_shared_secret(&bob, &alice_public).ok().unwrap();
    assert_eq!(from_alice.to_bytes(), array32(SHARED));
    assert_eq!(from_bob.to_bytes(), array32(SHARED));
}

#[test]
fn generated_pairs_agree_on_the_shared_secret() {
    let (alice_secret, alice_public) = x25519_generate();
    let (bob_secret, bob_public) = x25519_generate();
    assert_ne!(alice_public, bob_public);
    let from_alice = compute_shared_secret(&alice_secret, &bob_public).ok().unwrap();
    let from_bob = compute_shared_secret(&bob_secret, &alice_public).ok().unwrap();
    assert_eq!(from_alice.to_bytes(), from_bob.to_bytes());
}

#[test]
fn generated_public_key_belongs_to_the_secret() {
    let (secret, public) = x25519_generate();
    assert_eq!(secret.public_key(), public);
    let pair = generate_ephemeral();
    let public = pair.public_key();
    assert_eq!(pair.into_secret().public_key(), public);
}

#[test]
fn ephemeral_pairs_are_fresh() {
    assert_ne!(generate_ephemeral().public_key(), generate_ephemeral().public_key());
}

#[test]
fn ephemeral_pair_from_a_secret_has_its_public_key() {
    let pair = EphemeralKeyPair::from_secret(X25519Secret::from_bytes(array32(ALICE_SECRET)));
    assert_eq!(pair.public_key().to_bytes(), array32(ALICE_PUBLIC));
    assert_eq!(pair.into_secret().to_bytes(), array32(ALICE_SECRET));
}

#[test]
fn low_order_public_keys_are_refused() {
    let low_order = [
        "0000000000000000000000000000000000000000000000000000000000000000",
        "0100000000000000000000000000000000000000000000000000000000000000",
        "e0eb7a7c3b41b8ae1656e3faf19fc46ada098deb9c32b1fd866205165f49b800",
        "5f9c95bca3508c24b1d0b1559c83ef5b04445cc4581c8e86d8224eddd09f1157",
        "ecffffffffffffffffffffffffffffffffffffffffffffffffffffffffffff7f",
        "edffffffffffffffffffffffffffffffffffffffffffffffffffffffffffff7f",
        "eeffffffffffffffffffffffffffffffffffffffffffffffffffffffffffff7f",
    ];
    let (secret, _) = x25519_generate();
    for point in low_order {
        let public = X25519Public::from_bytes(array32(point));
        assert_eq!(
            compute_shared_secret(&secret, &public).err(),
            Some(CryptoError::InvalidPublicKey)
        );
    }
}

#[test]
fn the_base_point_is_an_ordinary_public_key() {
    let mut base = [0u8; 32];
    base[0] = 9;
    let secret = X25519Secret::from_bytes([3u8; 32]);
    let shared = compute_shared_secret(&secret, &X25519Public::from_bytes(base)).ok().unwrap();
    assert_eq!(
        shared.to_bytes(),
        array32("5dfedd3b6bd47f6fa28ee15d969d5bb0ea53774d488bdaf9df1c6e0124b3ef22")
    );
    assert_eq!(shared.to_bytes(), secret.public_key().to_bytes());
}

#[test]
fn raw_shared_secret_is_refused_only_when_all_zero() {
    assert_eq!(SharedSecret::from_raw([0u8; 32]).err(), Some(CryptoError::InvalidPublicKey));
    for position in 0..32 {
        let mut raw = [0u8; 32];
        raw[position] = 1;
        assert_eq!(SharedSecret::from_raw(raw).ok().unwrap().to_bytes(), raw);
        assert!(!is_all_zero(&raw));
    }
    assert!(is_all_zero(&[0u8; 32]));
    assert!(!is_all_zero(&[0xffu8; 32]));
}

#[test]
fn public_key_is_read_from_a_slice_of_its_length_only() {
    assert_eq!(X25519Public::from_slice(&[5u8; 32]).unwrap().to_bytes(), [5u8; 32]);
    assert!(X25519Public::from_slice(&[5u8; 31]).is_none());
    assert!(X25519Public::from_slice(&[5u8; 33]).is_none());
    assert!(X25519Public::from_slice(&[]).is_none());
}

#[test]
fn session_key_matches_hkdf_sha256() {
    let shared = SharedSecret::from_raw([0x11u8; 32]).ok().unwrap();
    let key = derive_session_key(&shared, b"transcript");
    assert_eq!(
        key.to_bytes(),
        array32("ec25ea964349909f58ea4f66abeedd343ccda00eb09ffda1c69a68035adef544")
    );
}

#[test]
fn session_key_is_deterministic() {
    let shared = SharedSecret::from_raw([0x11u8; 32]).ok().unwrap();
    let again = SharedSecret::from_raw([0x11u8; 32]).ok().unwrap();
    assert_eq!(
        derive_session_key(&shared, b"transcript").to_bytes(),
        derive_session_key(&again, b"transcript").to_bytes()
    );
}

#[test]
fn session_key_depends_on_the_transcript() {
    let shared = SharedSecret::from_raw([0x11u8; 32]).ok().unwrap();
    let key = derive_session_key(&shared, b"transcript");
    let swapped = derive_session_key(&shared, b"tpircsnart");
    assert_eq!(
        swapped.to_bytes(),
        array32("53b262265197e46925fb0e117ca3b343ac2f1a2ac6e5a0cab027e28a1d7c4478")
    );
    assert_ne!(key.to_bytes(), swapped.to_bytes());
}

#[test]
fn session_key_is_not_the_shared_secret() {
    let shared = SharedSecret::from_raw([0x11u8; 32]).ok().unwrap();
    assert_ne!(derive_session_key(&shared, b"").to_bytes(), shared.to_bytes());
    assert_eq!(SessionKey::from_bytes([8u8; 32]).to_bytes(), [8u8; 32]);
}

#[test]
fn wiping_a_secret_leaves_zeros() {
    let mut secret = X25519Secret::from_bytes([3u8; 32]);
    secret.wipe();
    assert_eq!(secret.to_bytes(), [0u8; 32]);
    let mut shared = SharedSecret::from_raw([4u8; 32]).ok().unwrap();
    shared.wipe();
    assert_eq!(shared.to_bytes(), [0u8; 32]);
    let mut key = SessionKey::from_bytes([5u8; 32]);
    key.wipe();
    assert_eq!(key.to_bytes(), [0u8; 32]);
}
