//! Git backup synchronisation: configuration, proxy discovery, the sync cycle
//! and the decisions behind the repository list.
pub mod config;
pub mod git;
pub mod git_api;
pub mod git_service;
pub mod network;
pub mod text;
pub mod ui;
