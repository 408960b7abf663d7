//! Periodic web-page change monitor: per-site snapshots, line diffs,
//! change descriptions and the scheduling decisions around them.

pub mod text;
pub mod diff;
pub mod monitor;
pub mod schedule;
