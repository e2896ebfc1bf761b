[package]
name = "magika"
version = "0.1.0"
edition = "2021"
publish = false

[dependencies]
ndarray = "=0.15.1"
onnxruntime = { version = "=0.0.14", features = ["disable-sys-build-script"] }
serde_json = "=1.0.154"
thiserror = "=1.0.69"
