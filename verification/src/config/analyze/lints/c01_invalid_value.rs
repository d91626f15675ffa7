//! Values that could not be parsed.
//!
//! The config language knows strings, numbers and arrays. A value that is
//! none of these is reported: under one code where it stands in the file as
//! it is, under another where a macro produced it.

use crate::common::reporting::Processed;
use crate::text::same_text;
use std::ops::Range;
use vstd::prelude::*;
use vstd::string::{StrSliceExecFns, StringExecFns};

verus! {

/// How grave a finding is.
#[derive(Clone, Copy, Debug, PartialEq, Eq, Structural)]
pub enum Severity {
    Error,
    Warning,
    Help,
}

/// The lint that reports values which could not be parsed.
#[derive(Clone, Copy, Debug, Default, PartialEq, Eq)]
pub struct LintC01InvalidValue;

impl LintC01InvalidValue {
    /// The name of the lint in the project file.
    pub fn ident(&self) -> (r: &'static str)
        ensures
            r@ == "invalid_value"@,
    {
        "invalid_value"
    }

    /// The place of the lint among the others.
    pub fn sort(&self) -> (r: u32)
        ensures
            r == 10,
    {
        10
    }

    /// What the lint reports, in a sentence.
    pub fn description(&self) -> (r: &'static str)
        ensures
            r@
                == "Reports on any values in the config that could not be parsed into a valid config value."@,
    {
        "Reports on any values in the config that could not be parsed into a valid config value."
    }

    /// How grave a finding is unless the project says otherwise.
    pub fn default_config(&self) -> (r: Severity)
        ensures
            r == Severity::Error,
    {
        Severity::Error
    }
}

/// What the lint found at a value.
#[derive(Debug, PartialEq, Eq)]
pub enum Finding {
    /// The value stands in the file as it is.
    Value(CodeC01InvalidValue),
    /// A macro produced the value.
    Macro(CodeC01InvalidValueMacro),
}

/// Whether the part of the output at the offset was produced by a macro.
pub open spec fn from_macro(processed: Processed, offset: usize) -> bool {
    match processed.mapping_index(offset) {
        Some(i) => processed.mappings@[i].was_macro,
        None => false,
    }
}

/// Whether the part of the output at the offset was produced by a macro.
pub fn is_from_macro(processed: &Processed, offset: usize) -> (r: bool)
    ensures
        r == from_macro(*processed, offset),
{
    match processed.mapping(offset) {
        Some(mapping) => mapping.was_macro,
        None => false,
    }
}

/// Looks at one value of a config. `invalid` is the span of the value where
/// it could not be parsed.
///
/// Nothing is found without the processed output, nor at a value that could
/// be parsed, nor where the span cuts no part out of the output. Otherwise
/// there is one finding: the one for macros where a macro produced the
/// beginning of the value, else the one for plain values.
pub fn run(processed: Option<&Processed>, invalid: Option<&Range<usize>>) -> (r: Vec<Finding>)
    ensures
        match (processed, invalid) {
            (Some(output), Some(span)) => if !Processed::sliceable(
                output.output@,
                span.start,
                span.end,
            ) {
                r@.len() == 0
            } else if from_macro(*output, span.start) {
                r@.len() == 1 && r@[0] is Macro && r@[0]->Macro_0.span == *span
            } else {
                r@.len() == 1 && r@[0] is Value && r@[0]->Value_0.span == *span
            },
            _ => r@.len() == 0,
        },
{
    let mut found: Vec<Finding> = Vec::new();
    match processed {
        None => {},
        Some(output) => match invalid {
            None => {},
            Some(span) => {
                if is_from_macro(output, span.start) {
                    match CodeC01InvalidValueMacro::new(span.start..span.end, output) {
                        Some(code) => found.push(Finding::Macro(code)),
                        None => {},
                    }
                } else {
                    match CodeC01InvalidValue::new(span.start..span.end, output) {
                        Some(code) => found.push(Finding::Value(code)),
                        None => {},
                    }
                }
            },
        },
    }
    found
}

/// A value in the file that could not be parsed.
#[derive(Debug, PartialEq, Eq)]
pub struct CodeC01InvalidValue {
    pub span: Range<usize>,
    pub value: String,
}

/// What to do about a value, by its text: a bare `true` or `false` wants
/// quotes or a number; a value in single quotes wants double quotes; any
/// other value wants quotes around it.
pub open spec fn help_for(value: Seq<char>) -> Seq<char> {
    if value == "true"@ || value == "false"@ {
        "use quotes `\"`, or 0 for false and 1 for true"@
    } else if value.len() > 0 && value.first() == '\'' && value.last() == '\'' {
        "quotes need to be `\"` instead of `'`"@
    } else {
        "use quotes `\"` around the value"@
    }
}

impl CodeC01InvalidValue {
    /// The finding for the value at `span`; `None` where the span cuts no
    /// part out of the output.
    pub fn new(span: Range<usize>, processed: &Processed) -> (r: Option<Self>)
        ensures
            r is Some <==> Processed::sliceable(processed.output@, span.start, span.end),
            r matches Some(code) ==> code.span == span && vstd::utf8::encode_utf8(code.value@)
                == processed.bytes(span.start, span.end),
    {
        match processed.slice(span.start, span.end) {
            Some(part) => Some(CodeC01InvalidValue { value: String::from_str(part), span }),
            None => None,
        }
    }

    /// The code of the finding.
    pub fn ident(&self) -> (r: &'static str)
        ensures
            r@ == "L-C01"@,
    {
        "L-C01"
    }

    /// Where the finding is explained.
    pub fn link(&self) -> (r: Option<&'static str>)
        ensures
            r matches Some(link) && link@ == "/analysis/config.html#invalid_value"@,
    {
        Some("/analysis/config.html#invalid_value")
    }

    /// What is wrong.
    pub fn message(&self) -> (r: String)
        ensures
            r@ == "property's value could not be parsed"@,
    {
        String::from_str("property's value could not be parsed")
    }

    /// What is wrong, for the place in the file.
    pub fn label_message(&self) -> (r: String)
        ensures
            r@ == "invalid value"@,
    {
        String::from_str("invalid value")
    }

    /// What to do about it.
    pub fn help(&self) -> (r: Option<String>)
        ensures
            r matches Some(text) && text@ == help_for(self.value@),
    {
        let value = self.value.as_str();
        if same_text(value, "true") || same_text(value, "false") {
            return Some(String::from_str("use quotes `\"`, or 0 for false and 1 for true"));
        }
        let length = value.unicode_len();
        if length > 0 && value.get_char(0) == '\'' && value.get_char(length - 1) == '\'' {
            Some(String::from_str("quotes need to be `\"` instead of `'`"))
        } else {
            Some(String::from_str("use quotes `\"` around the value"))
        }
    }
}

/// A value produced by a macro that could not be parsed.
#[derive(Debug, PartialEq, Eq)]
pub struct CodeC01InvalidValueMacro {
    pub span: Range<usize>,
    /// The processed output at the span: what the macro produced.
    pub output: String,
}

/// The note that shows what a macro produced.
pub open spec fn note_for(output: Seq<char>) -> Seq<char> {
    "The processed output was:\n"@ + output + " "@
}

impl CodeC01InvalidValueMacro {
    /// The finding for the value at `span`; `None` where the span cuts no
    /// part out of the output.
    pub fn new(span: Range<usize>, processed: &Processed) -> (r: Option<Self>)
        ensures
            r is Some <==> Processed::sliceable(processed.output@, span.start, span.end),
            r matches Some(code) ==> code.span == span && vstd::utf8::encode_utf8(code.output@)
                == processed.bytes(span.start, span.end),
    {
        match processed.slice(span.start, span.end) {
            Some(part) => Some(CodeC01InvalidValueMacro { span, output: String::from_str(part) }),
            None => None,
        }
    }

    /// What is added to the report: one note, which shows what the macro
    /// produced.
    pub fn notes(&self) -> (r: Vec<String>)
        ensures
            r@.len() == 1,
            r@[0]@ == note_for(self.output@),
    {
        let mut notes: Vec<String> = Vec::new();
        notes.push(
            String::from_str("The processed output was:\n").concat(self.output.as_str()).concat(
                " ",
            ),
        );
        notes
    }

    /// The code of the finding.
    pub fn ident(&self) -> (r: &'static str)
        ensures
            r@ == "L-C01M"@,
    {
        "L-C01M"
    }

    /// Where the finding is explained.
    pub fn link(&self) -> (r: Option<&'static str>)
        ensures
            r matches Some(link) && link@ == "/analysis/config.html#invalid_value"@,
    {
        Some("/analysis/config.html#invalid_value")
    }

    /// What is wrong.
    pub fn message(&self) -> (r: String)
        ensures
            r@ == "macro's result could not be parsed"@,
    {
        String::from_str("macro's result could not be parsed")
    }

    /// What is wrong, for the place in the file.
    pub fn label_message(&self) -> (r: String)
        ensures
            r@ == "invalid macro result"@,
    {
        String::from_str("invalid macro result")
    }

    /// What to do about it.
    pub fn help(&self) -> (r: Option<String>)
        ensures
            r matches Some(text) && text@
                == "perhaps this macro has a `Q_` variant or you need `QUOTE(..)`"@,
    {
        Some(String::from_str("perhaps this macro has a `Q_` variant or you need `QUOTE(..)`"))
    }
}

} // verus!
