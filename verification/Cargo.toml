[package]
name = "flexspi_fcb"
version = "0.1.0"
edition = "2021"
publish = false
