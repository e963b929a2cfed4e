[package]
name = "libeldenring"
version = "0.1.0"
edition = "2021"
publish = false

[dependencies]
heck = "=0.4.1"
imgui = "=0.8.2"
log = "=0.4.34"
rayon = "=1.12.0"
serde = { version = "=1.0.229", features = ["derive"] }
textwrap = "=0.16.4"
toml = "=0.5.11"
widestring = "=1.2.1"
windows = { version = "=0.35.0", features = ["Win32_Foundation", "Win32_Security", "Win32_Storage_FileSystem", "Win32_System_Diagnostics_Debug", "Win32_System_Diagnostics_ToolHelp", "Win32_System_Kernel", "Win32_System_LibraryLoader", "Win32_System_Threading", "Win32_UI_Input_KeyboardAndMouse"] }
