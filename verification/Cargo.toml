[package]
name = "vrf_flip"
version = "0.1.0"
edition = "2021"
publish = false

[dependencies]
anchor-lang = "0.28.0"
anchor-spl = "0.28.0"
bytemuck = "1"
solana-program = "1.16"
switchboard-v2 = "0.4.0"
