[package]
name = "particle_field"
version = "0.1.0"
edition = "2021"
publish = false

[dependencies]
rand = "0.8"
anyhow = "1"
log = "0.4"
flexi_logger = "0.31"
textwrap = "0.16"
