[package]
name = "phi_accrual_failure_detector"
version = "0.1.0"
edition = "2021"
publish = false

[dependencies]
thiserror = "1"
