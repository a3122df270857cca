[package]
name = "ollama_client"
version = "0.1.0"
edition = "2021"
publish = false

[dependencies]
base64 = "0.22"
clap = { version = "4", features = ["derive"] }
dotenv = "0.15"
ollama-rs = { version = "*", features = ["stream"] }
tokio = { version = "1", features = ["full"] }
tokio-stream = "0.1"
