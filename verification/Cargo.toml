[package]
name = "abwaves"
version = "0.1.0"
edition = "2021"
publish = false

[dependencies]
derive_more = { version = "*", features = ["add", "mul", "from", "deref"] }
image = "*"
noise = "*"
rand = "*"
rand_xoshiro = "*"
rayon = "*"
