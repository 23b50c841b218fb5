[package]
name = "sapling_builder"
version = "0.1.0"
edition = "2021"
publish = false

[dependencies]
bls12_381 = "0.8"
group = "0.13"
jubjub = "0.10"
rand = "0.8"
rand_core = "0.6"
redjubjub = "0.8"
