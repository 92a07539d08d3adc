[package]
name = "nrfs"
version = "0.1.0"
edition = "2021"
publish = false

[dependencies]
hashbrown = "=0.17.1"
crossbeam-utils = "=0.8.23"
