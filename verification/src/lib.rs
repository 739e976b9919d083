//! Verified core of a system-fact display utility.
//!
//! The library maps an ordered list of fact kinds (operating system, host,
//! kernel, uptime, ...) to formatted, optionally colorized output lines:
//! unit normalization for times and memory sizes, fact resolution against a
//! read-only snapshot of system readouts, column-aligned line rendering, and
//! the `user@host` banner with its underline.
//!
//! Data acquisition (reading `/proc`, sensors, the configuration file) and
//! the final write to the output stream are left to the calling program.

pub mod text;
pub mod units;
pub mod registry;
pub mod config;
pub mod system;
pub mod resolve;
pub mod render;
