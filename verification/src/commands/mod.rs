//! The logic of each subcommand of the tool.

pub mod adopt;
pub mod dashboard;
pub mod ingest;
pub mod init;
pub mod open;
pub mod promote;
pub mod seed;
pub mod snapshot;
pub mod status;
pub mod timeline;
pub mod watch;
