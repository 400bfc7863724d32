[package]
name = "dirsize"
version = "0.1.0"
edition = "2021"
publish = false

[dependencies]
byte-unit = "4"
ignore = "=0.4.33"
pad = "=0.1.6"
structopt = "=0.3.26"
thiserror = "=1.0.69"
