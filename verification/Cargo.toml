[package]
name = "synth_core"
version = "0.1.0"
edition = "2021"
publish = false

[dependencies]
flate2 = "=1.1.10"
midly = "=0.5.3"
mos6502 = "=0.6.2"
serde = { version = "1", features = ["derive"] }
serde_json = "1"
anyhow = "1"
log = "0.4"
env_logger = { version = "0.11", default-features = false }
rtrb = "0.3.6"
midir = "0.10.4"
cpal = "0.15.3"
