[package]
name = "mux"
version = "0.1.0"
edition = "2021"
publish = false

[dependencies]
kawa = "*"
hpack = "*"
rusty_ulid = "*"
mio = { version = "*", features = ["net", "os-poll"] }
