[package]
name = "zspy"
version = "0.1.0"
edition = "2021"
publish = false

[dependencies]
prost = "0.13"
serde = { version = "1", features = ["derive"] }
serde_json = "1"
clap = { version = "4", features = ["derive"] }
colored = "2"
tokio = { version = "1", features = ["macros", "rt-multi-thread", "time"] }
zenoh = { version = "1", default-features = false }
