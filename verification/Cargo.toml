[package]
name = "usb_io"
version = "0.1.0"
edition = "2021"
publish = false

[dependencies]
tokio = { version = "=1.54.1", features = ["sync", "rt", "time"] }
wire_weaver = "=0.4.0"
wire_weaver_client_common = "=0.1.0"
wire_weaver_usb_host = "=0.1.0"
