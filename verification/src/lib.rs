//! Decision logic for mirroring a hosted account's repositories into local
//! bare mirrors and for refreshing its downloadable export archives.

pub mod archive;
pub mod archive_laws;
pub mod args;
pub mod config;
pub mod errors;
pub mod github;
pub mod github_laws;
pub mod layout;
pub mod mirror;
pub mod mirror_laws;
pub mod plan;
pub mod targets;
pub mod text;
