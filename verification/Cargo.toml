[package]
name = "we_clap"
version = "0.1.0"
edition = "2021"
publish = false

[dependencies]
clap = "=4.6.7"
cliw = { version = "=0.1.1", features = ["urlargs", "console"] }
