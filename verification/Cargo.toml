[package]
name = "logistic_sweep"
version = "0.1.0"
edition = "2021"
publish = false

[dependencies]
csv = "=1.4.0"
ndarray = "=0.16.1"
ndarray-csv = "=0.5.4"
linfa = "=0.8.1"
linfa-logistic = "=0.8.1"
plotlib = "=0.5.1"
