[package]
name = "oreos"
version = "0.1.0"
edition = "2021"
publish = false

[dependencies]
crc = "3"
simplehash = "*"
heapless = "0.8"
proc-macro2 = "1"
syn = { version = "2", features = ["full", "extra-traits"] }
quote = "1"
prettyplease = "0.2"
anyhow = "1"
clap = { version = "4", features = ["derive"] }
serde = { version = "1", features = ["derive"] }
serde_json = "1"
toml = "0.8"
embedded-hal = "1"
embedded-hal-async = "1"
embedded-io-async = "0.6"
embassy-sync = "0.6"
embassy-time = "0.4"
critical-section = { version = "1", features = ["std"] }
static_cell = "2"
fugit = "0.3"
libm = "0.2"
enum_dispatch = "0.3"
convert_case = "0.6"
proc-macro-error = "1"
maybe-async = "0.2"
