[package]
name = "starter"
version = "1.0.0"
edition = "2021"
publish = false

[dependencies]
clap = { version = "4", features = ["derive"] }
cstr = "0.2"
home = "0.5"
jni-sys = "0.3"
libc = "0.2"
os_pipe = "1"
which = "4"
windows-sys = { version = "0.48", default-features = false, features = ["Win32_Foundation", "Win32_System_Console", "Win32_System_LibraryLoader", "Win32_UI_Shell", "Win32_UI_WindowsAndMessaging"] }
zip = { version = "0.6", default-features = false, features = ["deflate"] }
