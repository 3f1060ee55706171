[package]
name = "sbsrf_update"
version = "0.1.0"
edition = "2021"
publish = false

[dependencies]
clap = "*"
console = "*"
dialoguer = "*"
indicatif = "*"
rayon = "*"
reqwest = { version = "*", default-features = false, features = ["json"] }
serde = { version = "*", features = ["derive"] }
tempfile = "*"
tokio = { version = "*", features = ["rt-multi-thread", "macros"] }
toml = "*"
zip = { version = "*", default-features = false, features = ["deflate"] }
