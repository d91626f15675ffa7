//! Packing the files of an addon into an archive: where the archive goes and
//! which files go into it.

use crate::addons::Location;
use crate::common::error::Error;
use crate::lists::views;
use crate::text::{
    lowercase, replace, replaced, same_text, to_lowercase, trim_start_matches, without_prefixes,
};
use vstd::prelude::*;
use vstd::string::StringExecFns;

verus! {

/// Should the optional and compat PBOs be collapsed into the addons folder
#[derive(Clone, Copy, Debug, PartialEq, Eq, Structural)]
pub enum Collapse {
    /// Yes, used for development
    Yes,
    /// No, used for build and release
    No,
}

/// The folders that lead from the output folder to the archive of an addon,
/// the last being the name of the archive without its extension.
///
/// An addon goes to `addons`. An optional addon goes there too when the
/// build is collapsed. Otherwise it goes to `optionals`, where it gets a mod
/// folder of its own, named `@` and the name of the archive, if the project
/// asks for that.
pub open spec fn folders(
    collapse: Collapse,
    location: Location,
    optional_mod_folders: bool,
    pbo_name: Seq<char>,
) -> Seq<Seq<char>> {
    match collapse {
        Collapse::Yes => seq!["addons"@, pbo_name],
        Collapse::No => match location {
            Location::Addons => seq!["addons"@, pbo_name],
            Location::Optionals => if optional_mod_folders {
                seq!["optionals"@, "@"@ + pbo_name, "addons"@, pbo_name]
            } else {
                seq![location.folder_name(), pbo_name]
            },
        },
    }
}

/// Gives the folders that lead from the output folder to the archive of an
/// addon.
pub fn target_folders(
    collapse: Collapse,
    location: Location,
    optional_mod_folders: bool,
    pbo_name: &str,
) -> (r: Vec<String>)
    ensures
        views(r@) == folders(collapse, location, optional_mod_folders, pbo_name@),
{
    let mut r: Vec<String> = Vec::new();
    match collapse {
        Collapse::Yes => {
            r.push(String::from_str("addons"));
        },
        Collapse::No => match location {
            Location::Addons => {
                r.push(String::from_str("addons"));
            },
            Location::Optionals => {
                if optional_mod_folders {
                    r.push(String::from_str("optionals"));
                    r.push(String::from_str("@").concat(pbo_name));
                    r.push(String::from_str("addons"));
                } else {
                    r.push(String::from_str(location.folder()));
                }
            },
        },
    }
    r.push(String::from_str(pbo_name));
    r
}

/// What becomes of a file of an addon.
#[derive(Clone, Copy, Debug, PartialEq, Eq, Structural)]
pub enum Entry {
    /// The file stays out of the archive.
    Skip,
    /// The file holds the prefix of the archive.
    Prefix,
    /// The file goes into the archive.
    File,
}

/// What becomes of a file: a `config.cpp` that has a `config.bin` beside it
/// is left out, as is `addon.toml` and every file that a pattern excludes. Of
/// the rest, a file that holds the prefix is read for it, and every other
/// file is added.
pub open spec fn kind_of(
    filename: Seq<char>,
    has_config_bin: bool,
    excluded: bool,
    prefix_file: bool,
) -> Entry {
    if filename == "config.cpp"@ && has_config_bin {
        Entry::Skip
    } else if filename == "addon.toml"@ {
        Entry::Skip
    } else if excluded {
        Entry::Skip
    } else if prefix_file {
        Entry::Prefix
    } else {
        Entry::File
    }
}

/// Whether the file is left out for its name alone, before any pattern is
/// tried.
pub fn skipped_by_name(filename: &str, has_config_bin: bool) -> (r: bool)
    ensures
        r == (filename@ == "config.cpp"@ && has_config_bin || filename@ == "addon.toml"@),
{
    (same_text(filename, "config.cpp") && has_config_bin) || same_text(filename, "addon.toml")
}

/// Decides what becomes of a file.
pub fn entry_kind(filename: &str, has_config_bin: bool, excluded: bool, prefix_file: bool) -> (r:
    Entry)
    ensures
        r == kind_of(filename@, has_config_bin, excluded, prefix_file),
{
    if skipped_by_name(filename, has_config_bin) {
        Entry::Skip
    } else if excluded {
        Entry::Skip
    } else if prefix_file {
        Entry::Prefix
    } else {
        Entry::File
    }
}

/// A pattern of the `glob` crate, compiled.
#[verifier::external_type_specification]
#[verifier::external_body]
pub struct ExPattern(glob::Pattern);

/// The error of the `glob` crate for a pattern that cannot be compiled.
#[verifier::external_type_specification]
#[verifier::external_body]
pub struct ExPatternError(glob::PatternError);

/// Whether a pattern holds neither of the characters at which compiling it
/// can fail: `*`, which has to form a wildcard, and `[`, which has to open a
/// range.
pub open spec fn always_compiles(pattern: Seq<char>) -> bool {
    !pattern.contains('*') && !pattern.contains('[')
}

/// `glob::Pattern::new`: compiles a pattern, or says why it cannot. It
/// fails only at a `*` or a `[`, so a pattern without them compiles. What
/// the compiled pattern is depends on what counts as a separator of folders,
/// which is for the machine to say, so nothing more is stated.
#[verifier::external_body]
fn pattern_new(pattern: &str) -> (r: Result<glob::Pattern, glob::PatternError>)
    ensures
        always_compiles(pattern@) ==> r is Ok,
{
    glob::Pattern::new(pattern)
}

/// `glob::Pattern::matches`: whether the text matches the pattern, with the
/// options that the crate has by default. What counts as a separator of
/// folders is for the machine to say, so nothing is stated of the result.
#[verifier::external_body]
fn pattern_matches(pattern: &glob::Pattern, text: &str) -> (r: bool) {
    pattern.matches(text)
}

/// `glob::Pattern::matches_with`: whether the text matches the pattern, with
/// the option `require_literal_separator` as given and the other options as
/// the crate has them by default. What counts as a separator of folders is
/// for the machine to say, so nothing is stated of the result.
#[verifier::external_body]
fn pattern_matches_with(pattern: &glob::Pattern, text: &str, require_literal_separator: bool) -> (r:
    bool) {
    pattern.matches_with(text, glob::MatchOptions { require_literal_separator, ..Default::default() })
}

/// The fields of a `glob::PatternError`: the position at which the pattern
/// is wrong, and the reason.
#[verifier::external_body]
fn pattern_error_parts(error: &glob::PatternError) -> (r: (usize, String)) {
    (error.pos, error.msg.to_string())
}

/// The error of the library for a pattern that cannot be compiled.
fn pattern_error(error: &glob::PatternError) -> (r: Error)
    ensures
        r is GlobPattern,
{
    let (pos, msg) = pattern_error_parts(error);
    Error::GlobPattern(pos, msg)
}

/// How patterns are matched.
#[derive(Clone, Copy, Debug, PartialEq, Eq, Structural)]
pub enum Matching {
    /// A wildcard matches any character.
    Anywhere,
    /// A wildcard does not match a path separator.
    WithinFolders,
}

/// Whether every pattern of a list is one that always compiles.
pub open spec fn all_compile(patterns: Seq<String>) -> bool {
    forall|i: int| 0 <= i < patterns.len() ==> always_compiles(#[trigger] patterns[i]@)
}

/// Compiles every pattern of a list, or gives the error of the first that
/// cannot be compiled. Patterns without `*` and `[` all compile.
pub fn compile_patterns(patterns: &Vec<String>) -> (r: Result<Vec<glob::Pattern>, Error>)
    ensures
        r matches Ok(compiled) ==> compiled@.len() == patterns@.len(),
        r matches Err(e) ==> e is GlobPattern,
        all_compile(patterns@) ==> r is Ok,
{
    let mut compiled: Vec<glob::Pattern> = Vec::new();
    let mut i: usize = 0;
    while i < patterns.len()
        invariant
            i <= patterns.len(),
            compiled@.len() == i,
        decreases patterns.len() - i,
    {
        match pattern_new(patterns[i].as_str()) {
            Ok(pattern) => compiled.push(pattern),
            Err(e) => {
                return Err(pattern_error(&e));
            },
        }
        i += 1;
    }
    Ok(compiled)
}

/// Whether one of the compiled patterns matches the text. No pattern, no
/// match.
pub fn matches_any(compiled: &Vec<glob::Pattern>, text: &str, matching: Matching) -> (r: bool)
    ensures
        compiled@.len() == 0 ==> !r,
{
    let mut i: usize = 0;
    while i < compiled.len()
        invariant
            i <= compiled.len(),
        decreases compiled.len() - i,
    {
        let matched = match matching {
            Matching::Anywhere => pattern_matches(&compiled[i], text),
            Matching::WithinFolders => pattern_matches_with(&compiled[i], text, true),
        };
        if matched {
            return true;
        }
        i += 1;
    }
    false
}

/// Whether one of the patterns matches the text. The patterns are compiled
/// and tried in order: the first that matches excludes the text, and one that
/// cannot be compiled before that is an error. The only error is that of a
/// pattern, and there is none where the patterns hold no `*` and no `[`. No
/// pattern, no match.
pub fn excluded(text: &str, patterns: &Vec<String>) -> (r: Result<bool, Error>)
    ensures
        r matches Err(e) ==> e is GlobPattern,
        all_compile(patterns@) ==> r is Ok,
        patterns@.len() == 0 ==> r == Ok::<bool, Error>(false),
{
    let mut i: usize = 0;
    while i < patterns.len()
        invariant
            i <= patterns.len(),
        decreases patterns.len() - i,
    {
        match pattern_new(patterns[i].as_str()) {
            Ok(pattern) => {
                if pattern_matches(&pattern, text) {
                    return Ok(true);
                }
            },
            Err(e) => {
                return Err(pattern_error(&e));
            },
        }
        i += 1;
    }
    Ok(false)
}

/// The names under which a file holds the prefix of an archive.
pub open spec fn is_prefix_name(lower: Seq<char>) -> bool {
    lower == "$pboprefix$.txt"@ || lower == "pboprefix.txt"@ || lower == "$pboprefix$"@
}

/// Whether a file with this name, given in lower case, holds the prefix of
/// an archive.
pub fn is_prefix_file(lower: &str) -> (r: bool)
    ensures
        r == is_prefix_name(lower@),
{
    same_text(lower, "$pboprefix$.txt") || same_text(lower, "pboprefix.txt") || same_text(
        lower,
        "$pboprefix$",
    )
}

/// Whether the file with this name holds the prefix of an archive,
/// whatever the case of its letters.
pub fn holds_prefix(filename: &str) -> (r: bool)
    ensures
        r == is_prefix_name(lowercase(filename@)),
{
    let lower = to_lowercase(filename);
    is_prefix_file(lower.as_str())
}

/// The name of a file inside the archive: its path without the folder of the
/// addon in front, with backslashes between the folders.
pub open spec fn name_in_archive(entry: Seq<char>, folder: Seq<char>) -> Seq<char> {
    replaced(without_prefixes(entry, "/"@ + folder + "/"@), '/', "\\"@)
}

/// Gives the name of a file inside the archive.
pub fn archive_name(entry: &str, folder: &str) -> (r: String)
    ensures
        r@ == name_in_archive(entry@, folder@),
{
    let prefix = String::from_str("/").concat(folder).concat("/");
    proof {
        reveal_strlit("/");
        assert("/"@.len() == 1);
    }
    let relative = trim_start_matches(entry, prefix.as_str());
    replace(relative.as_str(), '/', "\\")
}

/// Sorts a file of an addon into or out of the archive.
///
/// A file that its name leaves out is skipped without a pattern being tried.
/// Otherwise the patterns of the project are tried on the path of the file,
/// then the patterns of the addon on the path without the folder of the
/// addon in front; a file that one of them matches is skipped. What is left
/// is the file that holds the prefix, or a file for the archive. The only
/// error is that of a pattern that is tried and does not compile.
pub fn sort_entry(
    filename: &str,
    has_config_bin: bool,
    path: &str,
    folder: &str,
    project_excludes: &Vec<String>,
    addon_excludes: &Vec<String>,
) -> (r: Result<Entry, Error>)
    ensures
        r matches Err(e) ==> e is GlobPattern,
        kind_of(filename@, has_config_bin, false, false) == Entry::Skip ==> r == Ok::<
            Entry,
            Error,
        >(Entry::Skip),
        all_compile(project_excludes@) && all_compile(addon_excludes@) ==> r is Ok,
        r matches Ok(kind) ==> kind == Entry::Skip || kind == kind_of(
            filename@,
            has_config_bin,
            false,
            is_prefix_name(lowercase(filename@)),
        ),
        project_excludes@.len() == 0 && addon_excludes@.len() == 0 ==> r == Ok::<Entry, Error>(
            kind_of(filename@, has_config_bin, false, is_prefix_name(lowercase(filename@))),
        ),
{
    if skipped_by_name(filename, has_config_bin) {
        return Ok(Entry::Skip);
    }
    match excluded(path, project_excludes) {
        Ok(false) => {},
        Ok(true) => {
            return Ok(Entry::Skip);
        },
        Err(e) => {
            return Err(e);
        },
    }
    let relative = relative_path(path, folder);
    match excluded(relative.as_str(), addon_excludes) {
        Ok(by_addon) => Ok(entry_kind(filename, has_config_bin, by_addon, holds_prefix(filename))),
        Err(e) => Err(e),
    }
}

/// The path of a file as the patterns of its addon see it: without the
/// folder of the addon in front.
pub fn relative_path(entry: &str, folder: &str) -> (r: String)
    ensures
        r@ == without_prefixes(entry@, "/"@ + folder@ + "/"@),
{
    let prefix = String::from_str("/").concat(folder).concat("/");
    proof {
        reveal_strlit("/");
        assert("/"@.len() == 1);
    }
    trim_start_matches(entry, prefix.as_str())
}

} // verus!
