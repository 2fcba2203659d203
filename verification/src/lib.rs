//! Startup support for a desktop markdown editor: finding the file named on
//! the command line and handing it to the user interface exactly once.

pub mod args;
pub mod file;
pub mod guarantees;
pub mod path;
pub mod resolver;
pub mod slot;
pub mod text;
pub mod trace;
