[package]
name = "page_session"
version = "0.1.0"
edition = "2021"
publish = false

[dependencies]
neovim-lib = "=0.6.1"
shell-words = "=1.1.1"
log = "=0.4.34"
# Not used directly: neovim-lib needs rmpv 0.4, which does not compile
# against the later releases of rmp 0.8.
rmp = "=0.8.9"
