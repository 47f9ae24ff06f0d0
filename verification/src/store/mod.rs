//! The blob store: entries, tables and files.

pub mod actor;
pub mod complete;
pub mod contents;
pub mod entry;
pub mod error;
pub mod export;
pub mod hash;
pub mod import;
pub mod laws;
pub mod live;
pub mod options;
pub mod outboard;
pub mod progress;
pub mod run;
pub mod tables;
