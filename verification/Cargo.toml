[package]
name = "rustpub"
version = "0.1.0"
edition = "2021"
publish = false

[dependencies]
url = "2"
scraper = "*"
soup = "*"
kuchiki = "*"
serde = { version = "1", features = ["derive"] }
serde_json = "1"
clap = "2"
reqwest = { version = "*", default-features = false, features = ["rustls-tls", "charset"] }
tokio = { version = "1", features = ["macros", "rt-multi-thread"] }
tempfile = "3"
tera = { version = "1", default-features = false }
epub-builder = "*"
readability = { version = "*", default-features = false }
anyhow = "1"
