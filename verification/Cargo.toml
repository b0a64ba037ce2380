[package]
name = "toolshim"
version = "0.1.0"
edition = "2021"
publish = false

[dependencies]
semver = "1.0"
atty = "0.2"
console = "0.15"
structopt = "0.3"
