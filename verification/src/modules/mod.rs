//! The steps of a build, and the rules they apply.

pub mod pbo;
pub mod rapifier;
