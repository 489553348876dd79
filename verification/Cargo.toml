[package]
name = "rdp_client"
version = "0.1.0"
edition = "2021"
publish = false

[dependencies]
chrono = "=0.4.45"
exitcode = "=1.1.2"
failure = "=0.1.8"
fern = "=0.6.2"
ironrdp = "=0.17.0"
log = "=0.4.34"
rustls = "=0.23.45"
sspi = "=0.22.1"
webpki = "=0.22.4"
