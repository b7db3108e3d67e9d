[package]
name = "dv-toolbox-core"
version = "0.1.0"
edition = "2021"
publish = false

[dependencies]
arbitrary-int = "1"
chrono = { version = "0.4", default-features = false, features = ["std", "serde"] }
itertools = "*"
num = "0.4"
page_size = "0.6"
rsmpeg = "*"
rust_decimal = { version = "1", default-features = false, features = ["std", "serde"] }
serde = { version = "1", features = ["derive"] }
snafu = "0.8"
