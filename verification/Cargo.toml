[package]
name = "umbra"
version = "0.1.0"
edition = "2021"
publish = false

[dependencies]
crossterm = "0.26"
log = "0.4"
thiserror = "1"
