//! Turning configs into their binary form: which files are turned, where the
//! result goes, and in which order the work on one file is done.

use crate::modules::pbo::{matches_any, Matching};
use crate::text::{ascii_lowercase, eq_ignore_ascii_case, has_part, same_text};
use vstd::prelude::*;

verus! {

/// The step of a build that turns configs into their binary form.
#[derive(Clone, Copy, Debug, Default, PartialEq, Eq)]
pub struct Rapifier;

impl Rapifier {
    /// The name of the step.
    pub fn name(&self) -> (r: &'static str)
        ensures
            r@ == "Rapifier"@,
    {
        "Rapifier"
    }
}

/// Whether the path holds a dot with the extension right behind it.
pub open spec fn holds_extension(path: Seq<char>, extension: Seq<char>) -> bool {
    has_part(path, "."@ + extension)
}

/// A path that holds an extension behind a dot holds a dot.
pub proof fn extension_needs_a_dot(path: Seq<char>, extension: Seq<char>)
    requires
        holds_extension(path, extension),
    ensures
        path.contains('.'),
{
    reveal_strlit(".");
    let part = "."@ + extension;
    let i = choose|i: int|
        0 <= i && i + part.len() <= path.len() && #[trigger] path.subrange(i, i + part.len())
            == part;
    assert(path.subrange(i, i + part.len())[0] == '.');
    assert(path[i] == '.');
}

/// `Path::extension` of the standard library: the extension of the file
/// name of a path, if it has one, which is the part of the file name behind
/// its last dot. Which part of a path is its file name depends on what
/// counts as a separator of folders, and that is for the machine to say. So
/// only this is stated: an extension stands in the path, right behind a dot.
#[verifier::external_body]
fn extension(path: &str) -> (r: Option<String>)
    ensures
        r matches Some(found) ==> holds_extension(path@, found@),
{
    std::path::Path::new(path).extension().map(|e| e.to_string_lossy().into_owned())
}

/// `Path::file_name` of the standard library: the last part of a path, if
/// it ends in one. What counts as a separator of folders is for the machine
/// to say.
#[verifier::external_body]
fn file_name(path: &str) -> (r: Option<String>) {
    std::path::Path::new(path).file_name().map(|e| e.to_string_lossy().into_owned())
}

/// The text of an optional part of a path; the empty text where there is
/// none.
fn or_empty(part: Option<String>) -> (r: String)
    ensures
        r@ == (match part {
            Some(text) => text@,
            None => Seq::<char>::empty(),
        }),
{
    match part {
        Some(text) => text,
        None => String::new(),
    }
}

/// Whether files with this extension are configs that can be turned into
/// their binary form.
pub open spec fn is_rapified(extension: Seq<char>) -> bool {
    extension == "cpp"@ || extension == "rvmat"@ || extension == "ext"@
}

/// Whether files with this extension can be rapified.
pub fn rapifies(extension: &str) -> (r: bool)
    ensures
        r == is_rapified(extension@),
{
    same_text(extension, "cpp") || same_text(extension, "rvmat") || same_text(extension, "ext")
}

/// Whether a file is a `cpp` file other than `config.cpp`. Such a file is
/// mostly an include under the wrong extension, and worth a warning.
pub fn is_stray_cpp(extension: &str, file_name: &str) -> (r: bool)
    ensures
        r == (extension@ == "cpp"@ && file_name@ != "config.cpp"@),
{
    same_text(extension, "cpp") && !same_text(file_name, "config.cpp")
}

/// Whether the file at the path can be rapified: whether the extension that
/// the standard library finds in the path is one that is rapified. Where it
/// is, the path holds that extension behind a dot, so a path without a dot is
/// never rapified.
pub fn can_rapify(path: &str) -> (r: bool)
    ensures
        r ==> exists|extension: Seq<char>|
            is_rapified(extension) && #[trigger] holds_extension(path@, extension),
        !path@.contains('.') ==> !r,
{
    let ext = or_empty(extension(path));
    proof {
        reveal_strlit("cpp");
        reveal_strlit("rvmat");
        reveal_strlit("ext");
        assert("cpp"@.len() == 3 && "rvmat"@.len() == 5 && "ext"@.len() == 3);
        if is_rapified(ext@) {
            extension_needs_a_dot(path@, ext@);
        }
    }
    rapifies(ext.as_str())
}

/// Whether an entry of an addon is a config to rapify: a file that can be
/// rapified and that none of the patterns matches, where a wildcard stays
/// within its folder. Only a file is selected, and only one whose path holds
/// an extension that is rapified behind a dot.
pub fn selects(is_file: bool, path: &str, excludes: &Vec<glob::Pattern>) -> (r: bool)
    ensures
        r ==> is_file,
        r ==> exists|extension: Seq<char>|
            is_rapified(extension) && #[trigger] holds_extension(path@, extension),
        !path@.contains('.') ==> !r,
{
    is_file && can_rapify(path) && !matches_any(excludes, path, Matching::WithinFolders)
}

/// Whether the file at the path is a `cpp` file other than `config.cpp`, by
/// the extension and the file name that the standard library finds in the
/// path. Where it is, the path holds `cpp` behind a dot.
pub fn warns_of_cpp(path: &str) -> (r: bool)
    ensures
        r ==> holds_extension(path@, "cpp"@),
        !path@.contains('.') ==> !r,
{
    let ext = or_empty(extension(path));
    let name = or_empty(file_name(path));
    proof {
        reveal_strlit("cpp");
        assert("cpp"@.len() == 3);
        if ext@ == "cpp"@ {
            extension_needs_a_dot(path@, ext@);
        }
    }
    is_stray_cpp(ext.as_str(), name.as_str())
}

/// Where the result of rapifying a file goes.
#[derive(Clone, Copy, Debug, PartialEq, Eq, Structural)]
pub enum Output {
    /// Beside the file, under the extension `bin`. The flag says whether the
    /// file is the config of the addon, whose required version is recorded.
    Binary { addon_config: bool },
    /// Over the file itself.
    InPlace,
}

/// Where the result goes: a `cpp` file, whatever the case of its extension,
/// gets a `bin` file beside it; anything else is replaced. `config.cpp` is
/// the config of the addon.
pub open spec fn output_of(filename: Seq<char>, extension: Seq<char>) -> Output {
    if ascii_lowercase(extension) == ascii_lowercase("cpp"@) {
        Output::Binary { addon_config: filename == "config.cpp"@ }
    } else {
        Output::InPlace
    }
}

/// Decides where the result of rapifying a file goes, from its name and its
/// extension.
pub fn output(filename: &str, extension: &str) -> (r: Output)
    ensures
        r == output_of(filename@, extension@),
{
    if eq_ignore_ascii_case(extension, "cpp") {
        Output::Binary { addon_config: same_text(filename, "config.cpp") }
    } else {
        Output::InPlace
    }
}

/// How far the work on one file has come.
#[derive(Clone, Copy, Debug, PartialEq, Eq, Structural)]
pub enum Progress {
    /// Nothing is done yet.
    Start,
    /// The file is preprocessed.
    Preprocessed,
    /// The config is parsed and has no errors.
    Parsed,
    /// The output is chosen.
    Placed,
    /// The work has ended.
    Done,
}

/// What came back from the last piece of work.
#[derive(Clone, Copy, Debug, PartialEq, Eq, Structural)]
pub enum Event {
    /// The work begins.
    Begin,
    /// The preprocessor is through.
    Preprocess(Preprocess),
    /// The parser is through: whether it gave a config, and how many errors
    /// the config has.
    Parse { parsed: bool, errors: usize },
    /// The output is chosen; the flag says whether the preprocessor asked for
    /// the file not to be rapified.
    Place { no_rapify: bool },
    /// The output file was opened, or not.
    Create { created: bool },
    /// The binary form was written, or not.
    Write { written: bool },
}

/// How the preprocessor ended.
#[derive(Clone, Copy, Debug, PartialEq, Eq, Structural)]
pub enum Preprocess {
    /// With the processed text.
    Processed,
    /// With an error in the code of the file, which is reported.
    Code,
    /// With another error, which ends the build.
    Failed,
}

/// What to do next.
#[derive(Clone, Copy, Debug, PartialEq, Eq, Structural)]
pub enum Action {
    /// Run the preprocessor on the file.
    Preprocess,
    /// Add the warnings of the preprocessor to the report and parse.
    Parse,
    /// Add what the parser found to the report and choose the output.
    Place,
    /// Open the output file.
    Create,
    /// Write the binary form.
    Write,
    /// Add what came back to the report and return it.
    Report,
    /// Return the report as it is.
    Finish,
    /// Return the error that came back.
    Fail,
}

/// The next state and what to do, for a state and what came back. An event
/// that does not belong to the state ends the work with the report as it is.
pub open spec fn stepped(progress: Progress, event: Event) -> (Progress, Action) {
    match (progress, event) {
        (Progress::Start, Event::Begin) => (Progress::Start, Action::Preprocess),
        (Progress::Start, Event::Preprocess(Preprocess::Processed)) => (
            Progress::Preprocessed,
            Action::Parse,
        ),
        (Progress::Start, Event::Preprocess(Preprocess::Code)) => (Progress::Done, Action::Report),
        (Progress::Start, Event::Preprocess(Preprocess::Failed)) => (Progress::Done, Action::Fail),
        (Progress::Preprocessed, Event::Parse { parsed, errors }) => if parsed && errors == 0 {
            (Progress::Parsed, Action::Place)
        } else {
            (Progress::Done, Action::Report)
        },
        (Progress::Parsed, Event::Place { no_rapify }) => if no_rapify {
            (Progress::Done, Action::Finish)
        } else {
            (Progress::Placed, Action::Create)
        },
        (Progress::Placed, Event::Create { created }) => if created {
            (Progress::Placed, Action::Write)
        } else {
            (Progress::Done, Action::Fail)
        },
        (Progress::Placed, Event::Write { written }) => if written {
            (Progress::Done, Action::Finish)
        } else {
            (Progress::Done, Action::Fail)
        },
        _ => (Progress::Done, Action::Finish),
    }
}

/// Decides what to do next in the work on one file.
pub fn rapify(progress: Progress, event: Event) -> (r: (Progress, Action))
    ensures
        r == stepped(progress, event),
{
    match progress {
        Progress::Start => match event {
            Event::Begin => (Progress::Start, Action::Preprocess),
            Event::Preprocess(Preprocess::Processed) => (Progress::Preprocessed, Action::Parse),
            Event::Preprocess(Preprocess::Code) => (Progress::Done, Action::Report),
            Event::Preprocess(Preprocess::Failed) => (Progress::Done, Action::Fail),
            _ => (Progress::Done, Action::Finish),
        },
        Progress::Preprocessed => match event {
            Event::Parse { parsed, errors } => {
                if parsed && errors == 0 {
                    (Progress::Parsed, Action::Place)
                } else {
                    (Progress::Done, Action::Report)
                }
            },
            _ => (Progress::Done, Action::Finish),
        },
        Progress::Parsed => match event {
            Event::Place { no_rapify } => {
                if no_rapify {
                    (Progress::Done, Action::Finish)
                } else {
                    (Progress::Placed, Action::Create)
                }
            },
            _ => (Progress::Done, Action::Finish),
        },
        Progress::Placed => match event {
            Event::Create { created } => {
                if created {
                    (Progress::Placed, Action::Write)
                } else {
                    (Progress::Done, Action::Fail)
                }
            },
            Event::Write { written } => {
                if written {
                    (Progress::Done, Action::Finish)
                } else {
                    (Progress::Done, Action::Fail)
                }
            },
            _ => (Progress::Done, Action::Finish),
        },
        Progress::Done => (Progress::Done, Action::Finish),
    }
}

} // verus!
