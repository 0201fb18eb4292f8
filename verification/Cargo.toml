[package]
name = "light_sync"
version = "0.1.0"
edition = "2021"
publish = false

[dependencies]
rand = "=0.3.23"
parking_lot = "=0.4.8"
log = "0.3"
