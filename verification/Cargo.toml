[package]
name = "asset_packer"
version = "0.1.0"
edition = "2021"
publish = false

[dependencies]
zip = { version = "=2.6.1", default-features = false, features = ["deflate"] }
sourcemap = "=9.3.2"
walkdir = "=2.5.0"
colored = "=2.2.0"
log = "=0.4.34"
env_logger = "=0.11.11"
rustyscript = { version = "=0.12.3", default-features = false }
deno_core = "=0.355.0"
napi = "=3.15.0"
napi-derive = "=3.6.13"
