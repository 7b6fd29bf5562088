//! The `use` command: interpreting a module on an input.
pub mod parse_runner;
