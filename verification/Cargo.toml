[package]
name = "access_token"
version = "0.1.0"
edition = "2021"
publish = false

[dependencies]
winapi = { version = "0.3", features = ["errhandlingapi", "handleapi", "minwindef", "processthreadsapi", "securitybaseapi", "winerror", "winnt", "winsafer", "winuser"] }
