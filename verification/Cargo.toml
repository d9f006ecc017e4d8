[package]
name = "urlfreezer_client"
version = "0.1.0"
edition = "2021"
publish = false

[dependencies]
url = "2"
csv = "1"
serde = "1"
serde_derive = "1"
structopt = "0.3"
ureq = { version = "2", features = ["json"] }
surf = { version = "2", default-features = false, features = ["h1-client-no-tls"] }
