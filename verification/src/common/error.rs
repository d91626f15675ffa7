//! What can be wrong with the configuration of a project.

use vstd::prelude::*;
use vstd::string::StringExecFns;

verus! {

/// An error in the configuration of a project.
#[derive(Debug, PartialEq, Eq)]
pub enum Error {
    /// The configuration is not valid, for the reason given.
    ConfigInvalid(String),
    /// Launch configurations stand both in the project file and in a launch
    /// file of their own.
    LaunchConfigConflict,
    /// The launch configuration with this name extends itself.
    LaunchConfigExtendsSelf(String),
    /// The launch configuration with the first name extends one with the
    /// second name, which does not exist.
    LaunchConfigExtendsMissing(String, String),
    /// A pattern for file names is wrong at the given position, for the
    /// reason given.
    GlobPattern(usize, String),
}

/// The mathematical value of an [`Error`].
pub enum ErrorView {
    ConfigInvalid(Seq<char>),
    LaunchConfigConflict,
    LaunchConfigExtendsSelf(Seq<char>),
    LaunchConfigExtendsMissing(Seq<char>, Seq<char>),
    GlobPattern(usize, Seq<char>),
}

impl View for Error {
    type V = ErrorView;

    open spec fn view(&self) -> ErrorView {
        match self {
            Error::ConfigInvalid(reason) => ErrorView::ConfigInvalid(reason@),
            Error::LaunchConfigConflict => ErrorView::LaunchConfigConflict,
            Error::LaunchConfigExtendsSelf(name) => ErrorView::LaunchConfigExtendsSelf(name@),
            Error::LaunchConfigExtendsMissing(name, parent) => ErrorView::LaunchConfigExtendsMissing(
                name@,
                parent@,
            ),
            Error::GlobPattern(position, reason) => ErrorView::GlobPattern(*position, reason@),
        }
    }
}

impl Error {
    /// The text that describes the error.
    pub open spec fn text(self) -> Seq<char> {
        match self {
            Error::ConfigInvalid(reason) => "Invalid config: "@ + reason@,
            Error::LaunchConfigConflict =>
                "Launch configs can not be used in both the project file and a launch file"@,
            Error::LaunchConfigExtendsSelf(name) => "Launch config extends itself: "@ + name@,
            Error::LaunchConfigExtendsMissing(name, parent) => "Launch config "@ + name@
                + " extends a missing config: "@ + parent@,
            Error::GlobPattern(_, reason) => "Glob pattern error: "@ + reason@,
        }
    }

    /// The error as a line for the user.
    pub fn message(&self) -> (text: String)
        ensures
            text@ == self.text(),
    {
        match self {
            Error::ConfigInvalid(reason) => String::from_str("Invalid config: ").concat(
                reason.as_str(),
            ),
            Error::LaunchConfigConflict => String::from_str(
                "Launch configs can not be used in both the project file and a launch file",
            ),
            Error::LaunchConfigExtendsSelf(name) => String::from_str(
                "Launch config extends itself: ",
            ).concat(name.as_str()),
            Error::LaunchConfigExtendsMissing(name, parent) => String::from_str(
                "Launch config ",
            ).concat(name.as_str()).concat(" extends a missing config: ").concat(parent.as_str()),
            Error::GlobPattern(_, reason) => String::from_str("Glob pattern error: ").concat(
                reason.as_str(),
            ),
        }
    }
}

} // verus!
