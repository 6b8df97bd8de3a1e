[package]
name = "audioshift"
version = "0.1.0"
edition = "2021"
publish = false

[dependencies]
dirs = "*"
num_cpus = "*"
uuid = { version = "*", features = ["v4"] }
symphonia = "*"
rubato = "*"
serde = { version = "*", features = ["derive"] }
serde_json = "*"
