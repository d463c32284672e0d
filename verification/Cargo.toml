[package]
name = "slowscan"
version = "0.1.0"
edition = "2021"
publish = false

[dependencies]
bytes = "1.12.1"
flume = "0.12.0"
itertools = "0.14.0"
num = "0.4.3"
rustfft = "6.4.1"
windowfunctions = "0.1.1"
