[package]
name = "blog_sync"
version = "0.1.0"
edition = "2021"
publish = false

[dependencies]
tera = { version = "1", default-features = false }
comrak = { version = "*", default-features = false }
urlencoding = "2"
serde = { version = "1", features = ["derive"] }
serde_json = "1"
tokio = { version = "1", features = ["rt-multi-thread", "macros", "fs"] }
warp = "0.3"
hyper = "0.14"
sqlx = { version = "0.8", default-features = false, features = ["runtime-tokio", "sqlite"] }
zip = { version = "0.6", default-features = false, features = ["deflate"] }
