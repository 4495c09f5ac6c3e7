//! Scaffolding for a containerised game server: the settings record, the
//! container descriptor rendered from it, and the decisions of the
//! provisioning procedure that writes both into a target directory.
pub mod text;
pub mod config;
pub mod docker;
pub mod provision;
pub mod laws;
