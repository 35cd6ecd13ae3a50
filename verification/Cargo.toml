[package]
name = "vector_utils"
version = "0.1.0"
edition = "2021"
publish = false

[dependencies]
arrow = { version = "57", default-features = false }
arrow-array = "57"
arrow-schema = "57"
prost = "0.14"

[dev-dependencies]
half = "2"
num-traits = "0.2"
