//! The `compile` command: compiling a module.
pub mod compile_runner;
