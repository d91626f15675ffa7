//! Options of the `release` command.

use vstd::prelude::*;

verus! {

/// Options of the `release` command.
#[derive(Clone, Debug, PartialEq, Eq)]
pub struct ReleaseOptions {
    pub folder: String,
    pub sign: bool,
    pub archive: bool,
}

impl ReleaseOptions {
    /// The name of the folder that a release is put in.
    pub fn folder(&self) -> (r: &String)
        ensures
            r == &self.folder,
    {
        &self.folder
    }

    /// Whether the addons of a release are signed.
    pub fn sign(&self) -> (r: bool)
        ensures
            r == self.sign,
    {
        self.sign
    }

    /// Whether a release is packed into an archive.
    pub fn archive(&self) -> (r: bool)
        ensures
            r == self.archive,
    {
        self.archive
    }
}

/// Options of the `release` command, as the project file holds them.
#[derive(Clone, Debug, PartialEq, Eq)]
pub struct ReleaseOptionsFile {
    pub folder: Option<String>,
    pub sign: Option<bool>,
    pub archive: Option<bool>,
}

impl ReleaseOptionsFile {
    /// Fills in the defaults: the folder is named after the prefix of the
    /// project, and a release is signed and archived, unless the file says
    /// otherwise.
    pub fn into_config(self, prefix: &str) -> (r: ReleaseOptions)
        ensures
            r.folder@ == (match self.folder {
                Some(folder) => folder@,
                None => prefix@,
            }),
            r.sign == (match self.sign {
                Some(sign) => sign,
                None => true,
            }),
            r.archive == (match self.archive {
                Some(archive) => archive,
                None => true,
            }),
    {
        ReleaseOptions {
            folder: match self.folder {
                Some(folder) => folder,
                None => prefix.to_owned(),
            },
            sign: match self.sign {
                Some(sign) => sign,
                None => true,
            },
            archive: match self.archive {
                Some(archive) => archive,
                None => true,
            },
        }
    }
}

} // verus!
