//! Verified core of a launcher that installs and supervises an external
//! server package: resolving the installation root, preserving user data
//! across destructive updates, orchestrating the update pipeline, and
//! supervising the server process with sanitized log streaming.

pub mod config;
pub mod netinfo;
pub mod paths;
pub mod preserve;
pub mod resolver;
pub mod sanitize;
pub mod supervisor;
pub mod text;
pub mod update;
pub mod version;
