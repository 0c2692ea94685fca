[package]
name = "sm_init_core"
version = "0.1.0"
edition = "2021"
publish = false

[dependencies]
nix = { version = "=0.31.3", features = ["fs", "signal"] }
num_cpus = "=1.17.0"
ocl = "=0.19.7"
serde = { version = "=1.0.229", features = ["derive"] }
serde_json = "=1.0.151"
winapi = { version = "=0.3.9", features = ["processthreadsapi", "handleapi", "winnt"] }
