[package]
name = "irq_safety"
version = "0.1.0"
edition = "2021"
publish = false

[dependencies]
spin = "0.9"
owning_ref = "0.4"
stable_deref_trait = "1"
