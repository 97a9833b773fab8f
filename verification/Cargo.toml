[package]
name = "douglas"
version = "0.1.0"
edition = "2021"
publish = false

[dependencies]
crossbeam-channel = "=0.5.17"
crossterm = "=0.29.0"
threadpool = "=1.8.1"
