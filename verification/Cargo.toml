[package]
name = "mon_maker"
version = "0.1.0"
edition = "2021"
publish = false

[dependencies]
anchor-lang = { version = "=0.32.2", features = ["init-if-needed"] }
anchor-spl = { version = "=0.32.2", features = ["metadata"] }
mpl-token-metadata = "=5.1.1"
