[package]
name = "teleflow"
version = "0.1.0"
edition = "2021"
publish = false

[dependencies]
regex = "*"
uuid = { version = "*", features = ["v4"] }
chrono = "*"
tokio = { version = "*", features = ["rt-multi-thread", "macros", "sync", "time"] }
sqlx = { version = "*", default-features = false, features = ["sqlite", "runtime-tokio"] }
serde = { version = "*", features = ["derive"] }
serde_json = "*"
rmp-serde = "*"
rand = "*"
rand_distr = "*"
aho-corasick = "*"
ractor = "*"
