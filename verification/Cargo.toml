[package]
name = "tarantool"
version = "0.1.0"
edition = "2021"
publish = false

[dependencies]
byteorder = "=1.5.0"
chrono = { version = "=0.4.45", default-features = false, features = ["std"] }
rmp = "=0.8.15"
rmp-serde = "=1.3.1"
rmpv = "=1.3.1"
rust_decimal = { version = "=1.43.0", default-features = false, features = ["std"] }
serde = "=1.0.229"
uuid = "=1.29.0"
