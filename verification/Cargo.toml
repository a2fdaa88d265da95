[package]
name = "paradise"
version = "0.1.0"
edition = "2021"
publish = false

[dependencies]
anyhow = "=1.0.104"
env_logger = "=0.11.11"
iou = "=0.3.3"
log = "=0.4.34"
nix = "=0.18.0"
num-traits = "=0.2.19"
parking_lot = "=0.13.0"
sqlx = { version = "=0.8.6", default-features = false, features = ["postgres", "runtime-tokio"] }
structopt = "=0.3.26"
tokio = { version = "=1.54.1", features = ["rt-multi-thread", "macros"] }
