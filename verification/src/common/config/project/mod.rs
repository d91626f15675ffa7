//! The project file.

pub mod hemtt;
