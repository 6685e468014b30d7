[package]
name = "moshi_asr"
version = "0.1.0"
edition = "2021"
publish = false

[dependencies]
hound = "=3.5.1"
tokenizers = "=0.22.2"
moshi = "=0.6.4"
candle-core = "=0.9.2"
candle-nn = "=0.9.2"
candle-transformers = "=0.9.2"
anyhow = "=1.0.104"
serde = { version = "=1.0.229", features = ["derive"] }
serde_json = "=1.0.151"
