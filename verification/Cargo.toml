[package]
name = "candle_cuda"
version = "0.1.0"
edition = "2021"
publish = false

[dependencies]
cudarc = { version = "=0.19.10", default-features = false, features = ["std", "driver", "cublas", "curand", "nvrtc", "f16", "f8", "dynamic-loading", "cuda-12080"] }
half = "=2.7.1"
float8 = "=0.7.0"
