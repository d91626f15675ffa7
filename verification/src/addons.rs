//! The addons of a project.

use vstd::prelude::*;

verus! {

/// Where in the project an addon lives.
#[derive(Clone, Copy, Debug, PartialEq, Eq, Hash, Structural)]
pub enum Location {
    /// Among the addons that are always part of the mod.
    Addons,
    /// Among the addons that a user may leave out.
    Optionals,
}

impl Location {
    /// The name of the folder of the location.
    pub open spec fn folder_name(self) -> Seq<char> {
        match self {
            Location::Addons => "addons"@,
            Location::Optionals => "optionals"@,
        }
    }

    /// The name of the folder of the location.
    pub fn folder(&self) -> (r: &'static str)
        ensures
            r@ == self.folder_name(),
    {
        match self {
            Location::Addons => "addons",
            Location::Optionals => "optionals",
        }
    }
}

} // verus!
