[package]
name = "ogg_library"
version = "0.1.0"
edition = "2021"
publish = false

[dependencies]
lofty = "0.24"
log = "0.4"
reqwest = { version = "0.12", default-features = false, features = ["blocking", "rustls-tls"] }
rspotify = { version = "0.15", default-features = false, features = ["client-ureq", "ureq-rustls-tls"] }
