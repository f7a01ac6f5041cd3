[package]
name = "dbgee"
version = "0.1.0"
edition = "2021"
publish = false

[dependencies]
anyhow = "1"
cfg-if = "1"
colored = "2"
ctrlc = "3"
env_logger = "0.8"
gimli = "0.23"
log = "0.4"
nix = "0.20"
object = "0.23"
once_cell = "1"
regex = "1"
structopt = "0.3"
strum = { version = "0.20", features = ["derive"] }
sysinfo = "0.16"
