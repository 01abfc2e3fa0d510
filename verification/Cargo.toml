[package]
name = "zcash_ffi"
version = "0.1.0"
edition = "2021"
publish = false

[dependencies]
jubjub = "=0.10.0"
rand = "=0.8.8"
rusqlite = "=0.37.0"
sapling-crypto = "=0.7.0"
secrecy = "=0.8.0"
zcash_client_backend = { version = "=0.24.0", features = ["non-standard-fees", "unstable", "transparent-inputs"] }
zcash_client_sqlite = { version = "=0.22.0", features = ["unstable", "transparent-inputs"] }
zcash_keys = { version = "=0.16.1", features = ["sapling", "transparent-inputs"] }
zcash_primitives = { version = "=0.30.1", features = ["transparent-inputs"] }
zcash_proofs = "=0.30.0"
zcash_protocol = "=0.10.6"
zcash_transparent = "=0.10.0"
zip32 = "=0.2.1"
