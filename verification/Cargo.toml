[package]
name = "vetta_core"
version = "0.1.0"
edition = "2021"
publish = false

[dependencies]
async-trait = "*"
clap = { version = "4", features = ["derive"] }
colored = "*"
hyper-util = { version = "*", features = ["tokio"] }
infer = "*"
prost = "0.13"
serde = { version = "1", features = ["derive"] }
tokio = { version = "1", features = ["macros", "rt-multi-thread", "net"] }
tokio-stream = "0.1"
tonic = "0.12"
tower = { version = "*", features = ["util"] }

[dev-dependencies]
tempfile = "3"
