[package]
name = "floating_odds_exchange"
version = "0.1.0"
edition = "2021"
publish = false

[dependencies]
basis-points = "=0.4.3"
brine-fp = "=0.3.1"
solana-math = { version = "=0.4.1", features = ["brine-fp"] }
quasar-lang = "=0.0.0"
quasar-spl = "=0.0.0"
