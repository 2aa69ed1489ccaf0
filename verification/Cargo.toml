[package]
name = "bromine"
version = "0.1.0"
edition = "2021"
publish = false

[dependencies]
chacha20poly1305 = "0.9"
x25519-dalek = "1.2"
sha2 = "0.10"
rand = "0.8"
rand_core = "0.6"
tokio = { version = "1", features = ["full"] }
async-trait = "0.1"
futures = "0.3"
futures-core = "0.3"
serde = { version = "1", features = ["derive"] }
rmp-serde = "1"
bincode = "1"
postcard = { version = "1", features = ["alloc"] }
serde_json = "1"
thiserror = "1"
tracing = "0.1"
trait-bound-typemap = "0.3"
lazy_static = "1.4"
