//! Command dispatch and configuration layer of the Moka module toolchain.
//!
//! A command line is decoded into [`cli::RawArguments`], the dispatcher picks
//! the builder of the selected command, the builder validates what it was given
//! and yields a runner, and the runner is run.
pub mod common;
pub mod parse;
pub mod compile;
pub mod cli;
pub mod dispatch;
