[package]
name = "proof_chain"
version = "0.1.0"
edition = "2021"
publish = false

[dependencies]
hex = "0.4"
num-bigint = "0.4"
plonky2 = "*"
starky = "*"
anyhow = "1"
primitive-types = "*"
ark-bls12-381 = "*"
