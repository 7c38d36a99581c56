[package]
name = "navin_shipment"
version = "0.1.0"
edition = "2021"

[dependencies]
soroban-sdk = "22.0.11"
