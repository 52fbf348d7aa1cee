[package]
name = "committee_presign"
version = "0.1.0"
edition = "2021"
publish = false

[dependencies]
bitcoin = "=0.32.102"
musig2 = "=0.4.1"
sha2 = "=0.10.9"
