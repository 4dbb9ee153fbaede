[package]
name = "nmstate"
version = "0.1.0"
edition = "2021"
publish = false

[dependencies]
log = "0.4"
nispor = "1.2"
serde = { version = "1.0", features = ["derive"] }
zbus = "1.9"
zvariant = "2.10"
