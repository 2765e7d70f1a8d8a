//! The logic of the `rustbasic` command-line tool of the RustBasic web
//! framework: reading commands, generating project files, managing the
//! package manifest and `Cargo.toml`, the cargo progress display, the
//! database settings and application key, and the build and deploy steps.
pub mod text;
pub mod utils;
pub mod progress;
pub mod packages;
pub mod templates;
pub mod scaffolding;
pub mod database;
pub mod builder;
pub mod publisher;
pub mod cli;
pub mod native;
