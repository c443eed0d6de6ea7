[package]
name = "retty"
version = "0.1.0"
edition = "2021"
publish = false

[dependencies]
bytes = "1"
log = "0.4"
async-trait = "0.1"
smol = "*"
futures-lite = "*"
async-broadcast = "*"
local-sync = "*"
waitgroup = "*"

[dev-dependencies]
anyhow = "1"
