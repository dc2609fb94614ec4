[package]
name = "zap"
version = "0.1.0"
edition = "2021"
publish = false

[dependencies]
ruint = "=1.21.1"
const-crypto = "=0.3.0"
anchor-lang = "=0.31.2"
anchor-spl = "=0.31.2"
pinocchio = "=0.9.3"
pinocchio-token = "=0.4.0"
pinocchio-log = "=0.5.1"
pinocchio-pubkey = "=0.3.0"
spl-transfer-hook-interface = "=0.9.0"
thiserror = "=1.0.69"
num_enum = "=0.7.6"

[dev-dependencies]
borsh = "=1.8.1"
