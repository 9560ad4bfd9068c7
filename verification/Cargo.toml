[package]
name = "uliqs_legendary"
version = "0.1.0"
edition = "2021"
publish = false

[dependencies]
anchor-lang = { version = "0.30.1", features = ["init-if-needed"] }
anchor-spl = { version = "0.30.1" }
mpl-token-metadata = { version = "4.1" }
spl-token-2022 = { version = "3.0", features = ["no-entrypoint"] }
