[package]
name = "merge_lua_ast"
version = "0.1.0"
edition = "2021"
publish = false

[dependencies]
rlua = "0.16"
