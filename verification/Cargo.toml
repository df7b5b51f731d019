[package]
name = "mono16k"
version = "0.1.0"
edition = "2021"
publish = false

[dependencies]
anyhow = "1"
clap = { version = "4", features = ["derive"] }
rubato = "0.16"
symphonia = { version = "0.5", features = ["isomp4", "aac"] }
symphonia-core = "0.5"
symphonia-format-isomp4 = "0.5"
symphonia-codec-aac = "0.5"
whisper-rs = "0.15"
