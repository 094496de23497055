[package]
name = "feretto"
version = "0.1.0"
edition = "2021"
publish = false

[dependencies]
aho-corasick = "0.6"
regex = "1"
crossbeam = "0.8"
curl = "0.4"
get_if_addrs = "0.5"
notify = "4"
rusoto_core = "0.42"
rusoto_sns = "0.42"
rusoto_sts = "0.42"
serde = "1"
serde_derive = "1"
serde_json = "1"
slog = "2"
slog-async = "2"
slog-term = "2"
