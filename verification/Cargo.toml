[package]
name = "berserker"
version = "0.1.0"
edition = "2021"
publish = false

[dependencies]
rand = "0.8"
rand_distr = "0.4"
core_affinity = "*"
config = "*"
serde = { version = "*", features = ["derive"] }
docopt = "*"
env_logger = "*"
fork = "*"
libc = "*"
log = "*"
nix = { version = "*", features = ["signal", "process"] }
smoltcp = { version = "*", features = ["phy-tuntap_interface", "socket-tcp", "medium-ip"] }
aya-obj = "*"
syscalls = "*"
