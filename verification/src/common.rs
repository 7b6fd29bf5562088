//! What the runner kinds share.
pub mod python;
pub mod text;
pub mod util;
