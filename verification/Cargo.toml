[package]
name = "otp_scanner"
version = "0.1.0"
edition = "2021"
publish = false

[dependencies]
image = { version = "=0.25.10", default-features = false, features = ["jpeg", "png"] }
yuv = { version = "=0.8.19", features = ["geometry"] }
rqrr = "=0.11.0"
totp-rs = { version = "=5.7.2", features = ["otpauth"] }
jni = "=0.21.1"
ndk-sys = "=0.6.0"
tokio = { version = "=1.54.1", features = ["sync", "time"] }
async-compat = "=0.2.6"
android-activity = { version = "=0.6.1", features = ["native-activity"] }
slint = { version = "=1.18.1", default-features = false, features = ["std", "compat-1-2"] }
i-slint-core = { version = "=1.18.1", default-features = false, features = ["std"] }
i-slint-backend-android-activity = { version = "=1.18.1", features = ["native-activity"] }
