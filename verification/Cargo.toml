[package]
name = "securecomm_crypto"
version = "0.1.0"
edition = "2021"
publish = false

[dependencies]
chacha20poly1305 = "=0.10.1"
ed25519-dalek = { version = "=2.2.0", features = ["rand_core"] }
x25519-dalek = { version = "=2.0.1", features = ["static_secrets"] }
rand_core = { version = "=0.6.4", features = ["getrandom"] }
hkdf = "=0.12.4"
sha2 = "=0.10.9"
zeroize = "=1.9.1"
tokio = { version = "=1.54.1", features = ["macros", "rt-multi-thread", "signal", "net", "io-util"] }
env_logger = "=0.11.11"
libp2p = "=0.57.1"
