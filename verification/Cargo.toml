[package]
name = "nih_plug_iced"
version = "0.1.0"
edition = "2021"
publish = false

[dependencies]
atomic_refcell = "0.1.14"
crossbeam = "0.8.5"
iced_baseview = "*"
