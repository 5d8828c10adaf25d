[package]
name = "arti_core"
version = "0.1.0"
edition = "2021"
publish = false

[dependencies]
glob-match = "=0.2.1"
sha3 = "=0.12.0"
anyhow = "=1.0.104"
toml_edit = "=0.25.16"
serde = { version = "=1.0.228", features = ["derive"] }
serde_json = "*"
serde_repr = "*"
thiserror = "*"
ssh-key = { version = "=0.6.7", features = ["ed25519"] }
downcast-rs = "=2.0.2"
rand = "=0.10.3"
ed25519-dalek = "=3.0.0"
x25519-dalek = { version = "=3.0.0", features = ["static_secrets"] }
