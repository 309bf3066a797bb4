[package]
name = "rpc_perf"
version = "0.1.0"
edition = "2021"
publish = false

[dependencies]
rand = "0.8"
rand_xoshiro = "0.6"
rand_distr = "0.4"
zipf = "7"
time = "0.1"
flate2 = "1"
bytes = "1"
tokio = { version = "1", features = ["full"] }
async-channel = "2"
ratelimit = "0.9"
log = "0.4"
