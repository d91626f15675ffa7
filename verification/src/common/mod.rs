//! What every part of the tool shares: the configuration of a project, the
//! origin of processed text, and errors.

pub mod config;
pub mod error;
pub mod reporting;
