[package]
name = "hid_rs"
version = "0.1.0"
edition = "2021"
publish = false

[dependencies]
winapi = { version = "0.3", features = ["setupapi", "fileapi", "handleapi", "winnt", "winbase", "ioapiset", "minwinbase", "hidsdi", "hidclass", "guiddef", "minwindef", "winerror", "bluetoothapis", "impl-default"] }
io_bluetooth = "*"
