[package]
name = "agent_market"
version = "0.1.0"
edition = "2021"
publish = false

[dependencies]
anchor-lang = "=0.30.1"
anchor-spl = "=0.30.1"
mpl-token-metadata = "=4.1.2"
