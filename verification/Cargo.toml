[package]
name = "conpty-oxide"
version = "0.1.0"
edition = "2021"
publish = false

[dependencies]
thiserror = "=2.0.21"
tokio = { version = "=1.54.1", default-features = false, features = ["io-util", "net", "rt"] }
tracing = { version = "=0.1.44", default-features = false, features = ["std"] }
windows-sys = { version = "=0.61.2", features = [
    "Wdk_System_SystemServices",
    "Win32_Foundation",
    "Win32_Security",
    "Win32_Storage_FileSystem",
    "Win32_System_Console",
    "Win32_System_Environment",
    "Win32_System_IO",
    "Win32_System_JobObjects",
    "Win32_System_LibraryLoader",
    "Win32_System_Pipes",
    "Win32_System_SystemInformation",
    "Win32_System_Threading",
] }
