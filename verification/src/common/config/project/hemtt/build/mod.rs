//! Options of the `build` command.

use super::check::PDriveOption;
use vstd::prelude::*;

verus! {

/// Options of the `build` command.
#[derive(Clone, Copy, Debug, PartialEq, Eq, Structural)]
pub struct BuildOptions {
    pub optional_mod_folders: bool,
    pub pdrive: PDriveOption,
}

impl BuildOptions {
    /// Whether each optional addon gets a mod folder of its own.
    pub fn optional_mod_folders(&self) -> (r: bool)
        ensures
            r == self.optional_mod_folders,
    {
        self.optional_mod_folders
    }

    /// What to do about the P drive.
    pub fn pdrive(&self) -> (r: &PDriveOption)
        ensures
            *r == self.pdrive,
    {
        &self.pdrive
    }
}

/// Options of the `build` command, as the project file holds them.
#[derive(Clone, Copy, Debug, PartialEq, Eq, Structural)]
pub struct BuildOptionsFile {
    pub optional_mod_folders: Option<bool>,
    pub pdrive: Option<PDriveOption>,
}

impl BuildOptionsFile {
    /// The options with every default filled in: optional addons get mod
    /// folders of their own, and the P drive is ignored, unless the file says
    /// otherwise.
    pub open spec fn filled(self) -> BuildOptions {
        BuildOptions {
            optional_mod_folders: match self.optional_mod_folders {
                Some(value) => value,
                None => true,
            },
            pdrive: match self.pdrive {
                Some(pdrive) => pdrive,
                None => PDriveOption::Ignore,
            },
        }
    }

    /// Fills in the defaults.
    pub fn into_options(self) -> (r: BuildOptions)
        ensures
            r == self.filled(),
    {
        BuildOptions {
            optional_mod_folders: match self.optional_mod_folders {
                Some(value) => value,
                None => true,
            },
            pdrive: match self.pdrive {
                Some(pdrive) => pdrive,
                None => PDriveOption::Ignore,
            },
        }
    }
}

} // verus!
