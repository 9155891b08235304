[package]
name = "metrics_exporter_statsd"
version = "0.1.0"
edition = "2021"
publish = false

[dependencies]
cadence = "*"
metrics = "*"
log = "*"
thiserror = "*"
