[package]
name = "tls_adapter"
version = "0.1.0"
edition = "2021"
publish = false

[dependencies]
rustls-fork-shadow-tls = { version = "*", features = ["dangerous_configuration"] }
tokio = { version = "1", features = ["net", "io-util", "rt", "macros"] }
webpki-roots = "0.22"
rustls-pemfile = "1"

[dev-dependencies]
ring = "0.16"
