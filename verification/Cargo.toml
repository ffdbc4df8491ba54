[package]
name = "catfs"
version = "0.9.0"
edition = "2021"
publish = false

[dependencies]
backtrace = "0.3"
chan-signal = "0.3"
chrono = "0.4"
clap = "2"
daemonize = "0.5"
env_logger = "*"
fuser = { version = "*", default-features = false }
itertools = "*"
libc = "0.2"
log = "0.4"
sha2 = "0.10"
syslog = "*"
threadpool = "1"
twox-hash = { version = "1", default-features = false }
xattr = "1"

[dev-dependencies]
rand = "0.8"
