[package]
name = "cw_test_harness"
version = "0.1.0"
edition = "2021"
publish = false

[dependencies]
cosmwasm-std = "1"
cw-multi-test = "=0.20.1"
cw20 = "1"
cw20-base = "1"
astroport = "=2.9.5"
astroport-token = "=1.1.1"
astroport-pair = "=1.3.3"
astroport-factory = "=1.5.1"
terraswap = "=2.9.0"
serde = "1"
schemars = "0.8"

[dev-dependencies]
cosmwasm-storage = "1"
