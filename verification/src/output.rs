//! How much of each object a command shows.
use vstd::prelude::*;

use crate::text::{chars_eq, chars_of};

verus! {

/// How much of each object a command shows.
#[derive(Clone, Copy, PartialEq, Eq, Structural, Debug)]
pub enum OutputFormat {
    /// Flat rows of primitive cells.
    Compact,
    /// Richer rows that keep nested lists and records.
    Wide,
    /// The daemon's payload as it came.
    Full,
}

/// The output mode when none is asked for: `wide` for a single object, `compact` for a list.
pub open spec fn default_format_of(single: bool) -> OutputFormat {
    if single {
        OutputFormat::Wide
    } else {
        OutputFormat::Compact
    }
}

pub fn default_format(single: bool) -> (f: OutputFormat)
    ensures
        f == default_format_of(single),
{
    if single {
        OutputFormat::Wide
    } else {
        OutputFormat::Compact
    }
}

/// The output mode a name asks for: `compact`, `wide` or `full`.
pub open spec fn format_named(name: Seq<char>) -> Option<OutputFormat> {
    if name == "compact"@ {
        Some(OutputFormat::Compact)
    } else if name == "wide"@ {
        Some(OutputFormat::Wide)
    } else if name == "full"@ {
        Some(OutputFormat::Full)
    } else {
        None
    }
}

/// The output mode for `--output`: the one named, or the default when none is given; `None` for
/// a name that is no mode.
pub fn output_format(given: Option<&str>, single: bool) -> (r: Option<OutputFormat>)
    ensures
        r == match given {
            Some(name) => format_named(name@),
            None => Some(default_format_of(single)),
        },
{
    match given {
        None => Some(default_format(single)),
        Some(name) => {
            let chars = chars_of(name);
            if chars_eq(&chars, "compact") {
                Some(OutputFormat::Compact)
            } else if chars_eq(&chars, "wide") {
                Some(OutputFormat::Wide)
            } else if chars_eq(&chars, "full") {
                Some(OutputFormat::Full)
            } else {
                None
            }
        },
    }
}

/// `--output` names a mode by `compact`, `wide` or `full` and by no other text; without it, a
/// single object is shown wide and a list compact.
pub proof fn law_output_formats(name: Seq<char>)
    ensures
        format_named("compact"@) == Some(OutputFormat::Compact),
        format_named("wide"@) == Some(OutputFormat::Wide),
        format_named("full"@) == Some(OutputFormat::Full),
        !(name == "compact"@ || name == "wide"@ || name == "full"@) ==> format_named(name) is None,
        default_format_of(true) == OutputFormat::Wide,
        default_format_of(false) == OutputFormat::Compact,
{
    reveal_strlit("compact");
    reveal_strlit("wide");
    reveal_strlit("full");
    assert("compact"@.len() == 7);
    assert("wide"@.len() == 4);
    assert("full"@.len() == 4);
    assert("wide"@[0] != "full"@[0]);
}

} // verus!
