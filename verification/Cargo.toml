[package]
name = "geoip"
version = "0.1.0"
edition = "2021"
publish = false

[dependencies]
aws-sdk-s3 = { version = "=1.155.0", default-features = false }
bytes = "=1.12.1"
justerror = "=1.1.0"
maxminddb = "=0.32.0"
thiserror = "=1.0.69"
