[package]
name = "camunda_external_task_client_rust"
version = "0.1.0"
edition = "2021"
publish = false

[dependencies]
log = "0.4"
rayon = "1"
reqwest = { version = "0.11", features = ["blocking", "json"] }
serde = { version = "1", features = ["derive"] }
serde_json = "1"
