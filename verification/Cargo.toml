[package]
name = "router_control"
version = "0.1.0"
edition = "2021"
publish = false

[dependencies]
anyhow = "*"
argon2 = "*"
axum = "*"
axum-extra = { version = "*", features = ["typed-header"] }
chrono = "*"
futures-util = "*"
log = "*"
macaddr = "*"
rtnetlink = "*"
serde = { version = "*", features = ["derive"] }
tokio = { version = "*", features = ["macros", "rt-multi-thread", "net"] }
tracing = "*"
tracing-subscriber = { version = "*", features = ["env-filter"] }
uuid = { version = "*", features = ["v4"] }
wl-nl80211 = "*"
