//! Looking for mistakes in a config.

pub mod lints;
