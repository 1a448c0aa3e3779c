//! A minimal self-hosted repository host library.
//!
//! The core is a commit-history / tree-flattening engine: given an on-disk
//! bare repository, walk every commit reachable from its head and, for each
//! commit, flatten the commit's content tree into a list of
//! (path, content identifier) pairs.

pub mod flatten;
pub mod gitstore;
pub mod laws;
pub mod model;
pub mod paths;
pub mod registry;
pub mod walker;
