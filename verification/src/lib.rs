//! A read-only filesystem view of the top entries of a remote listing.

pub mod attr;
pub mod config;
pub mod fs;
pub mod json;
pub mod laws;
pub mod listing;
pub mod refresh;
pub mod text;
pub mod window;

pub use crate::config::MemeFSConfig;
pub use crate::fs::{MemeFS, Post};
pub use crate::window::read_end;
