//! A verified core for a GitLab project assistant: typed extraction of
//! GitLab API data, a per-project context cache with staleness tracking
//! and prompt rendering, and a team workload aggregator.

pub mod agent;
pub mod auth;
pub mod cache;
pub mod cli;
pub mod extract;
pub mod json;
pub mod model;
pub mod render;
pub mod shell;
pub mod stale;
pub mod text;
pub mod tools_context;
pub mod tools_gitlab;
pub mod tools_glab;
pub mod urls;
pub mod workload;

