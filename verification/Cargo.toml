[package]
name = "simcore"
version = "0.1.0"
edition = "2021"
publish = false

[dependencies]
bevy = { version = "=0.9.1", default-features = false }
bevy_rapier3d = { version = "=0.19.0", default-features = false, features = ["dim3"] }
bitflags = "=1.3.2"
