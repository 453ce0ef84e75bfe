[package]
name = "sync_connection_wrapper"
version = "0.1.0"
edition = "2021"
publish = false

[dependencies]
diesel = { version = "2.3", default-features = false, features = ["i-implement-a-third-party-backend-and-opt-into-breaking-changes"] }
futures-core = "0.3"
futures-util = { version = "0.3", default-features = false, features = ["std"] }
tokio = { version = "1", default-features = false, features = ["rt"] }
