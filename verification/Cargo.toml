[package]
name = "ev3_ros_bridge"
version = "0.1.0"
edition = "2021"
publish = false

[dependencies]
tokio = { version = "=1.53.2", features = ["full"] }
tonic = "=0.14.6"
tonic-prost = "0.14"
prost = "=0.14.4"
safe_drive = "=0.4.3"
