//! Project resolution and session dispatch for a terminal workflow tool.
//!
//! The library unifies local project directories and a remote account into one
//! catalog, resolves what an interactive selector hands back, and decides the
//! steps of each lifecycle action. Apart from looking up the home directory,
//! all input and output is left to the caller: it lists directories, runs the
//! external tools and hands the library what they gave.

pub mod bridge;
pub mod catalog;
pub mod checks;
pub mod clone;
pub mod commands;
pub mod config;
pub mod lifecycle;
pub mod paths;
pub mod repo;
pub mod selection;
pub mod session;
pub mod text;
