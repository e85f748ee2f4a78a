[package]
name = "dma_buf"
version = "0.1.0"
edition = "2021"
publish = false

[dependencies]
log = "0.4"
rustix = { version = "0.38", features = ["fs", "mm", "param"] }
thiserror = "1"
