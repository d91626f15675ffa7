//! Configuration of a project.

pub mod project;
