[package]
name = "hook"
version = "0.1.0"
edition = "2021"
publish = false

[dependencies]
minhook = "*"
static_assertions = "1.1.0"

[dependencies.windows]
version = "0.61"
features = [
    "Win32_Foundation",
    "Win32_System_Console",
    "Win32_System_LibraryLoader",
    "Win32_System_SystemServices",
    "Win32_System_Threading",
    "Win32_UI_Input_KeyboardAndMouse",
]
