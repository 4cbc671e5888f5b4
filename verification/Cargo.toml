[package]
name = "altarik_launcher"
version = "0.1.0"
edition = "2021"
publish = false

[dependencies]
anyhow = "*"
async_zip = { version = "*", features = ["tokio", "deflate"] }
directories = "*"
rand = "=0.10.3"
reqwest = { version = "*", default-features = false, features = ["json"] }
serde = { version = "*", features = ["derive"] }
serde_json = "=1.0.151"
sha1 = "=0.10.7"
sha256 = { version = "=1.6.0", default-features = false }
tokio = { version = "*", features = ["rt-multi-thread", "macros", "fs", "io-util", "sync", "time", "net"] }
tokio-stream = "*"
tokio-tar = "*"
urlencoding = "=2.1.3"
warp = { version = "*", default-features = false, features = ["server"] }
