[package]
name = "sgtl5000"
version = "0.1.0"
edition = "2021"
publish = false
