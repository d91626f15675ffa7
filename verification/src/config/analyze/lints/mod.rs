//! The lints.

pub mod c01_invalid_value;
