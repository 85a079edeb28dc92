[package]
name = "uvm_jni"
version = "0.6.0"
edition = "2021"
publish = false

[dependencies]
jni = "0.14"
log = "0.4"
flexi_logger = "*"
