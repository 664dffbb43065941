use vstd::prelude::*;

use colored::{ColoredString, Colorize};

verus! {

/// `colored::ColoredString`, text with terminal colors, carried through as an opaque value.
#[verifier::external_type_specification]
#[verifier::external_body]
pub struct ExColoredString(ColoredString);

/// What `colored::Colorize::red` makes of a text.
pub uninterp spec fn colored_red(text: Seq<char>) -> ColoredString;

/// What `colored::Colorize::green` makes of a text.
pub uninterp spec fn colored_green(text: Seq<char>) -> ColoredString;

/// What `colored::Colorize::blue` makes of a text.
pub uninterp spec fn colored_blue(text: Seq<char>) -> ColoredString;

/// `text.red()`: the text with a red foreground; the result depends on the text only.
#[verifier::external_body]
pub(crate) fn paint_red(text: &str) -> (r: ColoredString)
    ensures
        r == colored_red(text@),
{
    text.red()
}

/// `text.green()`: the text with a green foreground; the result depends on the text only.
#[verifier::external_body]
pub(crate) fn paint_green(text: &str) -> (r: ColoredString)
    ensures
        r == colored_green(text@),
{
    text.green()
}

/// `text.blue()`: the text with a blue foreground; the result depends on the text only.
#[verifier::external_body]
pub(crate) fn paint_blue(text: &str) -> (r: ColoredString)
    ensures
        r == colored_blue(text@),
{
    text.blue()
}

} // verus!
