//! Tools for building mods: the bytecode compiler of the scripting language, the
//! project configuration of the commands, and the rules that the build modules
//! apply to the files of an addon.

pub mod addons;
pub mod commands;
pub mod common;
pub mod config;
pub mod executor;
pub mod lists;
pub mod modules;
pub mod sqf;
pub mod text;
