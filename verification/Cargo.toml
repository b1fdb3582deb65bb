[package]
name = "clickmate_store"
version = "0.1.0"
edition = "2021"
publish = false

[dependencies]
rusqlite = { version = "*", features = ["bundled-sqlcipher-vendored-openssl"] }
directories = "*"
fs-err = "*"

[dev-dependencies]
tempfile = "*"
