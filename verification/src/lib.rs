//! Contract interface compiler and runtime bridge.

pub mod build_runner;
pub mod cli;
pub mod cli_error;
pub mod commands;
pub mod compiler;
pub mod counter;
pub mod data_driver;
pub mod data_driver_wasm;
pub mod declaration;
pub mod descriptor;
pub mod detect;
pub mod driver;
pub mod embedded;
pub mod engine;
pub mod error;
pub mod extract;
pub mod generate;
pub mod outside;
pub mod parse;
pub mod resolve;
pub mod scan;
pub mod schema;
pub mod string_map;
pub mod text;
pub mod toolchain;
pub mod validate;
pub mod wasm;
