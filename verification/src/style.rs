//! The display styles a timestamp token can select, and the total mapping
//! from the free-form selector string a form control hands over to a style.

use vstd::prelude::*;

verus! {

/// The closed set of display styles a downstream chat client understands.
/// Each carries a single token character; the client does the actual
/// human-readable rendering.
#[derive(Clone, Copy, Debug, PartialEq, Eq, Structural)]
pub enum TimeFormatStyle {
    /// e.g. "23/04/2022"
    ShortDate,
    /// e.g. "23 April 2022"
    WrittenDate,
    /// e.g. "23 April 2022 18:00"
    WrittenDateTime,
    /// e.g. "18:00"
    TimeOnly,
    /// e.g. "18:00:00"
    TimeSeconds,
    /// e.g. "In 9 minutes"
    Relative,
    /// e.g. "Saturday, 23 April 2022 18:00"
    FullDateTime,
}

/// The token character of each style. Case is significant: `t` and `T`,
/// `d` and `D`, `f` and `F` all have independent meaning.
pub open spec fn style_char_spec(style: TimeFormatStyle) -> char {
    match style {
        TimeFormatStyle::ShortDate => 'd',
        TimeFormatStyle::WrittenDate => 'D',
        TimeFormatStyle::WrittenDateTime => 'f',
        TimeFormatStyle::TimeOnly => 't',
        TimeFormatStyle::TimeSeconds => 'T',
        TimeFormatStyle::Relative => 'R',
        TimeFormatStyle::FullDateTime => 'F',
    }
}

/// Looks up the token character of `style`.
pub fn style_char(style: TimeFormatStyle) -> (c: char)
    ensures
        c == style_char_spec(style),
{
    match style {
        TimeFormatStyle::ShortDate => 'd',
        TimeFormatStyle::WrittenDate => 'D',
        TimeFormatStyle::WrittenDateTime => 'f',
        TimeFormatStyle::TimeOnly => 't',
        TimeFormatStyle::TimeSeconds => 'T',
        TimeFormatStyle::Relative => 'R',
        TimeFormatStyle::FullDateTime => 'F',
    }
}

/// The style a selector string resolves to: the seven recognized keys map
/// to their styles, and every other string (the empty string included)
/// falls back to `FullDateTime`. The fallback is a deliberate default,
/// never an error; the seventh key, `fulldatetime`, coincides with it, so
/// the final branch serves both.
pub open spec fn resolve_style_spec(s: Seq<char>) -> TimeFormatStyle {
    if s == "shortdate"@ {
        TimeFormatStyle::ShortDate
    } else if s == "writtendate"@ {
        TimeFormatStyle::WrittenDate
    } else if s == "writtendatetime"@ {
        TimeFormatStyle::WrittenDateTime
    } else if s == "timeonly"@ {
        TimeFormatStyle::TimeOnly
    } else if s == "timeseconds"@ {
        TimeFormatStyle::TimeSeconds
    } else if s == "relative"@ {
        TimeFormatStyle::Relative
    } else {
        TimeFormatStyle::FullDateTime
    }
}

/// Character-by-character string comparison.
fn str_eq(a: &str, b: &str) -> (r: bool)
    ensures
        r == (a@ == b@),
{
    let alen = a.unicode_len();
    let blen = b.unicode_len();
    if alen != blen {
        return false;
    }
    let mut i: usize = 0;
    while i < alen
        invariant
            i <= alen,
            alen == a@.len(),
            alen == b@.len(),
            forall|j: int| 0 <= j < i ==> a@[j] == b@[j],
        decreases alen - i,
    {
        if a.get_char(i) != b.get_char(i) {
            return false;
        }
        i += 1;
    }
    proof {
        assert(a@ =~= b@);
    }
    true
}

/// Resolves a selector string to a style. Total: every input, the seven
/// recognized keys as well as arbitrary garbage, resolves to some style;
/// an unrecognized selector resolves to `FullDateTime`.
pub fn resolve_style(selector: &str) -> (style: TimeFormatStyle)
    ensures
        style == resolve_style_spec(selector@),
{
    if str_eq(selector, "shortdate") {
        TimeFormatStyle::ShortDate
    } else if str_eq(selector, "writtendate") {
        TimeFormatStyle::WrittenDate
    } else if str_eq(selector, "writtendatetime") {
        TimeFormatStyle::WrittenDateTime
    } else if str_eq(selector, "timeonly") {
        TimeFormatStyle::TimeOnly
    } else if str_eq(selector, "timeseconds") {
        TimeFormatStyle::TimeSeconds
    } else if str_eq(selector, "relative") {
        TimeFormatStyle::Relative
    } else {
        TimeFormatStyle::FullDateTime
    }
}

/// A selector that is none of the six keys with a style of their own
/// resolves to the documented default, `FullDateTime`.
pub proof fn lemma_unknown_selector_defaults(s: Seq<char>)
    requires
        s != "shortdate"@,
        s != "writtendate"@,
        s != "writtendatetime"@,
        s != "timeonly"@,
        s != "timeseconds"@,
        s != "relative"@,
    ensures
        resolve_style_spec(s) == TimeFormatStyle::FullDateTime,
{
}

} // verus!
