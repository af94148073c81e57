//! Batch image conversion through the `vips` command-line tool: settings,
//! command construction, the job queue and the decisions around them.

pub mod cli;
pub mod diagnostics;
pub mod job;
pub mod path;
pub mod settings;
pub mod summary;
pub mod text;
pub mod ui;
pub mod vips;
pub mod worker;
