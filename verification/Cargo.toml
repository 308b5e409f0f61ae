[package]
name = "sniffnet"
version = "0.1.0"
edition = "2021"
publish = false

[dependencies]
etherparse = "0.13"
chrono = "0.4"
dns-lookup = "2"
pcap = "1"
