[package]
name = "ttce_wgpu_rust_core"
version = "0.1.0"
edition = "2021"
publish = false

[dependencies]
wgpu = { version = "=24.0.5", features = ["naga-ir"] }
naga = { version = "=24.0.0", features = ["spv-in"] }
hassle-rs = "=0.11.0"
libloading = "=0.8.9"
once_cell = "=1.21.4"
tokio = { version = "=1.53.2", features = ["rt", "sync"] }
