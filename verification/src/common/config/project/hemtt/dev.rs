//! Options of the `dev` command.

use vstd::prelude::*;

verus! {

/// Options of the `dev` command.
#[derive(Clone, Debug, PartialEq, Eq)]
pub struct DevOptions {
    pub exclude: Vec<String>,
}

impl DevOptions {
    /// The addons that are left out of a development build.
    pub fn exclude(&self) -> (r: &Vec<String>)
        ensures
            r == &self.exclude,
    {
        &self.exclude
    }
}

/// Options of the `dev` command, as the project file holds them.
#[derive(Clone, Debug, PartialEq, Eq)]
pub struct DevOptionsFile {
    pub exclude: Vec<String>,
}

impl DevOptionsFile {
    /// Takes the options over as they are.
    pub fn into_options(self) -> (r: DevOptions)
        ensures
            r.exclude == self.exclude,
    {
        DevOptions { exclude: self.exclude }
    }
}

} // verus!
