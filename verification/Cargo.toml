[package]
name = "release_watch"
version = "0.1.0"
edition = "2021"
publish = false

[dependencies]
clap = { version = "4", features = ["derive"] }
futures = "0.3"
k8s-openapi = { version = "0.20", features = ["latest"] }
kube = { version = "0.87", default-features = false, features = ["client", "runtime"] }
mac-notification-sys = "0.6"
tokio = { version = "1", features = ["macros", "rt-multi-thread"] }
