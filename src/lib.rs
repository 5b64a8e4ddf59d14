//! Resolution of XDG base directories: the user-level path of a category,
//! its ordered system-wide paths, and the first of those that exists.
//!
//! The environment is passed in as an [`Environment`] value, and the search
//! for an existing path takes what was observed on disk for each candidate,
//! so every function here is a function of its arguments.
use vstd::prelude::*;

pub mod dirs;
pub mod env;
pub mod error;
pub mod laws;
pub mod path;
pub mod resolve;

pub use dirs::XdgDir;
pub use env::Environment;
pub use error::Error;
pub use resolve::{xdg_candidates, xdg_config_dir, xdg_location_of, xdg_system_dirs, xdg_user_dir};

verus! {

} // verus!
