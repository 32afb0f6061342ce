[package]
name = "media_remote"
version = "0.1.0"
edition = "2021"
publish = false

[dependencies]
maud = "0.26"
serde = { version = "1", features = ["derive"] }
serde_json = "1"
tokio = { version = "1", features = ["macros", "rt-multi-thread", "sync"] }
tokio-stream = "0.1"
futures = "0.3"
futures-util = "0.3"
warp = "0.3"
windows = { version = "0.58", features = ["Foundation", "Media_Control", "Win32_Foundation", "Win32_Media_Audio", "Win32_Media_Audio_Endpoints", "Win32_System_Com", "Win32_UI_Input_KeyboardAndMouse", "implement"] }
