//! Launch configurations: how the game is started for a test.

use crate::lists::{copied, dedup, unique, views};
use vstd::prelude::*;

verus! {

/// The text of an optional string.
pub open spec fn text_of(text: Option<String>) -> Option<Seq<char>> {
    match text {
        Some(text) => Some(text@),
        None => None,
    }
}

/// A copy of an optional string.
pub fn copied_text(text: &Option<String>) -> (r: Option<String>)
    ensures
        text_of(r) == text_of(*text),
{
    match text {
        Some(text) => Some(text.clone()),
        None => None,
    }
}

/// One list after the other.
pub fn joined(first: Vec<String>, second: Vec<String>) -> (r: Vec<String>)
    ensures
        views(r@) == views(first@) + views(second@),
{
    let mut r = first;
    let mut rest = second;
    r.append(&mut rest);
    r
}

/// A launch configuration, as a file holds it. It may extend another one by
/// name.
#[derive(Clone, Debug, PartialEq, Eq)]
pub struct LaunchOptionsFile {
    pub extends: Option<String>,
    pub workshop: Vec<String>,
    pub dlc: Vec<String>,
    pub presets: Vec<String>,
    pub optionals: Vec<String>,
    pub mission: Option<String>,
    pub parameters: Vec<String>,
    pub executable: Option<String>,
    pub binarize: Option<bool>,
    pub file_patching: Option<bool>,
    pub instances: Option<u8>,
}

/// The mathematical value of a [`LaunchOptionsFile`].
pub struct LaunchFileView {
    pub extends: Option<Seq<char>>,
    pub workshop: Seq<Seq<char>>,
    pub dlc: Seq<Seq<char>>,
    pub presets: Seq<Seq<char>>,
    pub optionals: Seq<Seq<char>>,
    pub mission: Option<Seq<char>>,
    pub parameters: Seq<Seq<char>>,
    pub executable: Option<Seq<char>>,
    pub binarize: Option<bool>,
    pub file_patching: Option<bool>,
    pub instances: Option<u8>,
}

impl View for LaunchOptionsFile {
    type V = LaunchFileView;

    open spec fn view(&self) -> LaunchFileView {
        LaunchFileView {
            extends: text_of(self.extends),
            workshop: views(self.workshop@),
            dlc: views(self.dlc@),
            presets: views(self.presets@),
            optionals: views(self.optionals@),
            mission: text_of(self.mission),
            parameters: views(self.parameters@),
            executable: text_of(self.executable),
            binarize: self.binarize,
            file_patching: self.file_patching,
            instances: self.instances,
        }
    }
}

/// A launch configuration, ready for use.
#[derive(Clone, Debug, PartialEq, Eq)]
pub struct LaunchOptions {
    pub workshop: Vec<String>,
    pub dlc: Vec<String>,
    pub presets: Vec<String>,
    pub optionals: Vec<String>,
    pub mission: Option<String>,
    pub parameters: Vec<String>,
    pub executable: Option<String>,
    pub binarize: bool,
    pub file_patching: bool,
    pub instances: u8,
}

/// The mathematical value of a [`LaunchOptions`].
pub struct LaunchView {
    pub workshop: Seq<Seq<char>>,
    pub dlc: Seq<Seq<char>>,
    pub presets: Seq<Seq<char>>,
    pub optionals: Seq<Seq<char>>,
    pub mission: Option<Seq<char>>,
    pub parameters: Seq<Seq<char>>,
    pub executable: Option<Seq<char>>,
    pub binarize: bool,
    pub file_patching: bool,
    pub instances: u8,
}

impl View for LaunchOptions {
    type V = LaunchView;

    open spec fn view(&self) -> LaunchView {
        LaunchView {
            workshop: views(self.workshop@),
            dlc: views(self.dlc@),
            presets: views(self.presets@),
            optionals: views(self.optionals@),
            mission: text_of(self.mission),
            parameters: views(self.parameters@),
            executable: text_of(self.executable),
            binarize: self.binarize,
            file_patching: self.file_patching,
            instances: self.instances,
        }
    }
}

/// The second option where the first says nothing.
pub open spec fn or_else<T>(first: Option<T>, second: Option<T>) -> Option<T> {
    match first {
        Some(_) => first,
        None => second,
    }
}

/// A configuration laid over the one it extends. Lists hold what the
/// parent lists, then what the configuration lists. A single setting is that
/// of the configuration where it has one, else that of the parent. The result
/// extends what the parent extends.
pub open spec fn overlaid(child: LaunchFileView, parent: LaunchFileView) -> LaunchFileView {
    LaunchFileView {
        extends: parent.extends,
        workshop: parent.workshop + child.workshop,
        dlc: parent.dlc + child.dlc,
        presets: parent.presets + child.presets,
        optionals: parent.optionals + child.optionals,
        mission: or_else(child.mission, parent.mission),
        parameters: parent.parameters + child.parameters,
        executable: or_else(child.executable, parent.executable),
        binarize: or_else(child.binarize, parent.binarize),
        file_patching: or_else(child.file_patching, parent.file_patching),
        instances: or_else(child.instances, parent.instances),
    }
}

/// A configuration with every entry of its lists kept once.
pub open spec fn deduped(file: LaunchFileView) -> LaunchFileView {
    LaunchFileView {
        workshop: unique(file.workshop, file.workshop.len()),
        dlc: unique(file.dlc, file.dlc.len()),
        presets: unique(file.presets, file.presets.len()),
        optionals: unique(file.optionals, file.optionals.len()),
        parameters: unique(file.parameters, file.parameters.len()),
        ..file
    }
}

/// A configuration with every default filled in: the game is started once,
/// with file patching and without binarizing, unless the file says otherwise.
pub open spec fn filled(file: LaunchFileView) -> LaunchView {
    LaunchView {
        workshop: file.workshop,
        dlc: file.dlc,
        presets: file.presets,
        optionals: file.optionals,
        mission: file.mission,
        parameters: file.parameters,
        executable: file.executable,
        binarize: match file.binarize {
            Some(value) => value,
            None => false,
        },
        file_patching: match file.file_patching {
            Some(value) => value,
            None => true,
        },
        instances: match file.instances {
            Some(value) => value,
            None => 1,
        },
    }
}

impl LaunchOptionsFile {
    /// A copy of the configuration.
    pub fn copy(&self) -> (r: LaunchOptionsFile)
        ensures
            r@ == self@,
    {
        LaunchOptionsFile {
            extends: copied_text(&self.extends),
            workshop: copied(&self.workshop),
            dlc: copied(&self.dlc),
            presets: copied(&self.presets),
            optionals: copied(&self.optionals),
            mission: copied_text(&self.mission),
            parameters: copied(&self.parameters),
            executable: copied_text(&self.executable),
            binarize: self.binarize,
            file_patching: self.file_patching,
            instances: self.instances,
        }
    }

    /// Lays the configuration over the one it extends.
    pub fn overlay(self, other: LaunchOptionsFile) -> (r: LaunchOptionsFile)
        ensures
            r@ == overlaid(self@, other@),
    {
        LaunchOptionsFile {
            extends: other.extends,
            workshop: joined(other.workshop, self.workshop),
            dlc: joined(other.dlc, self.dlc),
            presets: joined(other.presets, self.presets),
            optionals: joined(other.optionals, self.optionals),
            mission: match self.mission {
                Some(mission) => Some(mission),
                None => other.mission,
            },
            parameters: joined(other.parameters, self.parameters),
            executable: match self.executable {
                Some(executable) => Some(executable),
                None => other.executable,
            },
            binarize: match self.binarize {
                Some(value) => Some(value),
                None => other.binarize,
            },
            file_patching: match self.file_patching {
                Some(value) => Some(value),
                None => other.file_patching,
            },
            instances: match self.instances {
                Some(value) => Some(value),
                None => other.instances,
            },
        }
    }

    /// Keeps every entry of the lists once, where it stands first.
    pub fn dedup(self) -> (r: LaunchOptionsFile)
        ensures
            r@ == deduped(self@),
    {
        LaunchOptionsFile {
            extends: self.extends,
            workshop: dedup(self.workshop),
            dlc: dedup(self.dlc),
            presets: dedup(self.presets),
            optionals: dedup(self.optionals),
            mission: self.mission,
            parameters: dedup(self.parameters),
            executable: self.executable,
            binarize: self.binarize,
            file_patching: self.file_patching,
            instances: self.instances,
        }
    }

    /// Fills in the defaults.
    pub fn into_options(self) -> (r: LaunchOptions)
        ensures
            r@ == filled(self@),
    {
        LaunchOptions {
            workshop: self.workshop,
            dlc: self.dlc,
            presets: self.presets,
            optionals: self.optionals,
            mission: self.mission,
            parameters: self.parameters,
            executable: self.executable,
            binarize: match self.binarize {
                Some(value) => value,
                None => false,
            },
            file_patching: match self.file_patching {
                Some(value) => value,
                None => true,
            },
            instances: match self.instances {
                Some(value) => value,
                None => 1,
            },
        }
    }
}

} // verus!
