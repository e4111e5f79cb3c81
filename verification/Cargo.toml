[package]
name = "dictator"
version = "0.1.0"
edition = "2021"
publish = false

[dependencies]
anyhow = "1"
async-openai = "0.29"
async-trait = "0.1"
cpal = "0.16"
evdev = { version = "0.13", features = ["tokio"] }
hound = "3.5"
regex = "1"
ringbuf = "0.4"
rodio = "0.21"
serde = { version = "1", features = ["derive"] }
serde_json = "1"
tempfile = "3"
tokio = { version = "1", features = ["full"] }
tracing = "0.1"
tracing-subscriber = "0.3"
