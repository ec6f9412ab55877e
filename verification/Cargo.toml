[package]
name = "miller_nav"
version = "0.1.0"
edition = "2021"
publish = false

[dependencies]
winwalk = "=0.2.2"
