[package]
name = "filetransfer"
version = "0.1.0"
edition = "2021"
publish = false

[dependencies]
chrono = "0.4"
remotefs = "0.2"
tempfile = "3"
tuirealm = "1"
