[package]
name = "reinfer_client"
version = "0.1.0"
edition = "2021"
publish = false

[dependencies]
anyhow = "1"
chrono = { version = "0.4", features = ["serde"] }
ordered-float = { version = "*", features = ["serde"] }
reqwest = { version = "0.11", default-features = false, features = ["blocking", "json"] }
scoped_threadpool = "0.1"
serde = { version = "1", features = ["derive"] }
serde_json = "1"
serde_with = "*"
structopt = "0.3"
thiserror = "1"
url = "2"
