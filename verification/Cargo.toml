[package]
name = "sentinel"
version = "0.1.0"
edition = "2021"
publish = false

[dependencies]
hex = "=0.4.3"
regex = "=1.13.1"
html-escape = "=0.2.15"
urlencoding = "=2.1.3"
aes-gcm = "=0.10.3"
argon2 = "=0.5.3"
rand = "=0.8.8"
rand_chacha = "=0.3.1"
serde = { version = "=1.0.229", features = ["derive"] }
serde_json = "=1.0.154"
pqcrypto-mlkem = "=0.1.1"
pqcrypto-traits = "=0.3.5"
ark-bn254 = "=0.5.0"
ark-ff = "=0.5.0"
ark-groth16 = "=0.5.0"
ark-snark = "=0.5.1"
ark-relations = "=0.5.1"
ark-r1cs-std = "=0.5.0"
ark-serialize = "=0.5.0"
ark-crypto-primitives = { version = "=0.5.0", features = ["crh", "sponge", "r1cs"] }
url = "2"
scraper = "*"
blake3 = { version = "1", features = ["pure"] }
