[package]
name = "gantry"
version = "0.1.0"
edition = "2021"
publish = false

[dependencies]
serde_json = "=1.0.154"
serde = { version = "=1.0.229", features = ["derive"] }
rmp-serde = "=1.3.1"
wascap = "=0.16.2"
wascc-codec = "0.5"
wascc-actor = "0.5"
wascc-host = { version = "*", default-features = false }
structopt = "=0.3.26"
serde_yaml = "=0.9.34"
term-table = "=1.4.0"
text_io = "=0.1.13"
indicatif = "=0.18.6"
dirs = "=7.0.0"
env_logger = "=0.11.11"
lazy_static = "=1.5.1"
log = "=0.4.34"

[dev-dependencies]
nkeys = "=0.4.5"
