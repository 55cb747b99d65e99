[package]
name = "ccfront"
version = "0.1.0"
edition = "2021"
publish = false

[dependencies]
bitvec = "1"
indexmap = "2"
crossbeam-channel = "0.5"
thiserror = "2"
