[package]
name = "quicli"
version = "0.4.0"
edition = "2021"
publish = false

[dependencies]
env_logger = "=0.11.11"
exitfailure = "0.5.1"
failure = "0.1.8"
failure_derive = "0.1.8"
globwalk = "=0.9.1"
log = "=0.4.34"
rayon = "1.12"
remove_dir_all = "1.0"
serde_derive = "1.0"
structopt = "0.3.26"
structopt-derive = "0.4.18"
