//! Verified core of a command-line tool that manages music projects as git
//! repositories: project layout, seeds, lifecycle status tags, snapshots,
//! timelines and the multi-project dashboard.

pub mod text;
pub mod order;
pub mod clock;
pub mod git;
pub mod config;
pub mod paths;
pub mod projects;
pub mod reaper;
pub mod commands;
