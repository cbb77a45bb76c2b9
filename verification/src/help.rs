//! The help text that lists the kinds a user can name.

use crate::kind::{DeviceKind, KIND_COUNT};
use crate::kind_set::DeviceKindSet;
use vstd::prelude::*;
use vstd::string::*;

verus! {

/// The columns that the command-line help takes for its own indentation.
pub const HELP_MARGIN: usize = 12;

/// What `textwrap::fill` makes of `text` at `width` columns, with the
/// options that `textwrap::Options::new` chooses.
pub uninterp spec fn filled(text: Seq<char>, width: usize) -> Seq<char>;

/// The line that introduces the list of names.
pub open spec fn help_heading() -> Seq<char> {
    "Bluetooth device kinds to match, comma separated. Possible values:\n\n"@
}

/// The canonical names of the first `count` kinds, in the order of their
/// codes, with a comma and a space between them.
pub open spec fn names_joined(count: nat) -> Seq<char>
    decreases count,
{
    if count == 0 {
        Seq::empty()
    } else if count == 1 {
        DeviceKind::lenient(0).spec_name()
    } else {
        names_joined((count - 1) as nat) + ", "@ + DeviceKind::lenient(
            (count - 1) as u32,
        ).spec_name()
    }
}

/// The width that is left for the names on a terminal of `columns` columns:
/// what the margin leaves, and nothing where the terminal is narrower than
/// the margin.
pub open spec fn wrap_width(columns: usize) -> usize {
    if columns >= HELP_MARGIN {
        (columns - HELP_MARGIN) as usize
    } else {
        0
    }
}

/// The help text for a terminal of `columns` columns.
pub open spec fn help_text(columns: usize) -> Seq<char> {
    help_heading() + filled(names_joined(KIND_COUNT as nat), wrap_width(columns))
}

/// Calls `textwrap::fill` with the options of `textwrap::Options::new(width)`.
/// The result is the text wrapped to lines of at most `width` columns where
/// that can be done; the contract only names it.
#[verifier::external_body]
fn fill(text: &str, width: usize) -> (wrapped: String)
    ensures
        wrapped@ == filled(text@, width),
{
    textwrap::fill(text, textwrap::Options::new(width))
}

/// Calls `textwrap::termwidth`: the width of the terminal in columns, or 80
/// where there is no terminal. Nothing is claimed of the number.
#[verifier::external_body]
fn terminal_width() -> (columns: usize) {
    textwrap::termwidth()
}

impl DeviceKindSet {
    /// The canonical names of all kinds, in the order of their codes, with
    /// a comma and a space between them.
    pub fn kind_names() -> (names: String)
        ensures
            names@ == names_joined(KIND_COUNT as nat),
    {
        let mut names = String::new();
        let mut code: u32 = 0;
        while code < KIND_COUNT
            invariant
                code <= KIND_COUNT,
                names@ == names_joined(code as nat),
            decreases KIND_COUNT - code,
        {
            if code > 0 {
                names.append(", ");
            }
            names.append(DeviceKind::from_code(code).canonical_name());
            code += 1;
        }
        names
    }

    /// The help text around the list of names, once that list is wrapped.
    pub fn help_around(wrapped_names: &str) -> (text: String)
        ensures
            text@ == help_heading() + wrapped_names@,
    {
        let mut text = String::from_str(
            "Bluetooth device kinds to match, comma separated. Possible values:\n\n",
        );
        text.append(wrapped_names);
        text
    }

    /// The help text for a terminal of `columns` columns: the heading, then
    /// the names of all kinds, wrapped to the width that the margin leaves.
    pub fn long_help_at(columns: usize) -> (text: String)
        ensures
            text@ == help_text(columns),
    {
        let width = if columns >= HELP_MARGIN {
            columns - HELP_MARGIN
        } else {
            0
        };
        let names = Self::kind_names();
        let wrapped = fill(names.as_str(), width);
        Self::help_around(wrapped.as_str())
    }

    /// The help text for the terminal that the process runs on.
    pub fn long_help() -> (text: String)
        ensures
            exists|columns: usize| text@ == help_text(columns),
    {
        let columns = terminal_width();
        Self::long_help_at(columns)
    }
}

} // verus!
