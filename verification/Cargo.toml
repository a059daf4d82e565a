[package]
name = "avr_sim"
version = "0.1.0"
edition = "2021"
publish = false

[dependencies]
anyhow = "1"
thiserror = "*"
serde = { version = "1", features = ["derive"] }
serde_json = "1"
rusqlite = { version = "*", features = ["bundled"] }
xmltree = "*"
phf = { version = "*", features = ["macros"] }

[dev-dependencies]
phf_generator = "*"
phf_shared = "*"
