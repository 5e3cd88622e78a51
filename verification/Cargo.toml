[package]
name = "remote_trigger"
version = "0.1.0"
edition = "2021"
publish = false

[dependencies]
aws-iot-device-sdk-rust = { version = "=0.8.1", features = ["sync"] }
rumqttc = "=0.25.1"
tokio = { version = "=1.53.2", features = ["rt-multi-thread", "macros", "time"] }
