[package]
name = "pacy"
version = "0.1.0"
edition = "2021"
publish = false

[dependencies]
spin_sleep = "1"
profiling = "1"
egui = "0.18"
