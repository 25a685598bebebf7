[package]
name = "led_display_client"
version = "0.1.0"
edition = "2021"
publish = false

[dependencies]
sha1 = "*"

[dev-dependencies]
embedded-websocket = "*"
