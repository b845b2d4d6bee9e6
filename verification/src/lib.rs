//! Lists the binaries that `cargo install` has placed under an install root,
//! each with the version and description found in the root's source cache.

pub mod cli;
pub mod dirname;
pub mod failure;
pub mod index;
pub mod inventory;
pub mod lister;
pub mod locator;
pub mod manifest;
pub mod pattern;
pub mod reporter;
pub mod scanner;
pub mod text;
