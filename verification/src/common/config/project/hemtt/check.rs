//! Options of the `check` command.

use vstd::prelude::*;

verus! {

/// What to do about the P drive.
#[derive(Clone, Copy, Debug, PartialEq, Eq, Structural)]
pub enum PDriveOption {
    /// The P drive must not be used.
    Disallow,
    /// The P drive is used where it is there.
    Ignore,
    /// The P drive has to be there.
    Require,
}

/// Options of the `check` command.
#[derive(Clone, Copy, Debug, PartialEq, Eq, Structural)]
pub struct CheckOptions {
    pub pdrive: PDriveOption,
}

impl CheckOptions {
    /// What to do about the P drive.
    pub fn pdrive(&self) -> (r: &PDriveOption)
        ensures
            *r == self.pdrive,
    {
        &self.pdrive
    }
}

/// Options of the `check` command, as the project file holds them.
#[derive(Clone, Copy, Debug, PartialEq, Eq, Structural)]
pub struct CheckOptionsFile {
    pub pdrive: Option<PDriveOption>,
}

impl CheckOptionsFile {
    /// The options with every default filled in: the P drive is ignored
    /// unless the file says otherwise.
    pub open spec fn filled(self) -> CheckOptions {
        CheckOptions {
            pdrive: match self.pdrive {
                Some(pdrive) => pdrive,
                None => PDriveOption::Ignore,
            },
        }
    }

    /// Fills in the defaults.
    pub fn into_options(self) -> (r: CheckOptions)
        ensures
            r == self.filled(),
    {
        CheckOptions {
            pdrive: match self.pdrive {
                Some(pdrive) => pdrive,
                None => PDriveOption::Ignore,
            },
        }
    }
}

} // verus!
