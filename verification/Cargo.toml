[package]
name = "git-flow"
version = "0.5.0"
edition = "2021"
publish = false

[dependencies]
clap = "2"
git2 = "0.19"
rpassword = "5"

[dev-dependencies]
tempfile = "3"
