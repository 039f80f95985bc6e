[package]
name = "dnd_adventure"
version = "0.1.0"
edition = "2021"
publish = false

[dependencies]
chrono = "=0.4.45"
colored = "=2.2.0"
dialoguer = "=0.11.0"
dotenv = "=0.15.0"
indicatif = "=0.17.11"
rand = "=0.8.8"
rig-core = "0.11"
serde = { version = "=1.0.229", features = ["derive"] }
serde_json = "=1.0.154"
tokio = { version = "=1.54.1", features = ["macros", "rt-multi-thread"] }
