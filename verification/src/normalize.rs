//! Text clean-up before phonemization: line breaks and tabs become spaces,
//! runs of spaces shrink to one, web addresses go, the ends are trimmed.

use vstd::prelude::*;
use crate::text::{chars_of, spec_trim, string_of, trim};

verus! {

/// The pattern of a web address: `http://` or `https://` and everything up to
/// the next white space.
pub const URL_PATTERN: &'static str = r"https?://\S+";

/// A line break or a tab becomes a space; any other character stays.
pub open spec fn spec_blank(c: char) -> char {
    if c == '\n' || c == '\t' {
        ' '
    } else {
        c
    }
}

/// `s` with every line break and tab turned into a space.
pub open spec fn spec_blank_controls(s: Seq<char>) -> Seq<char> {
    Seq::new(s.len(), |i: int| spec_blank(s[i]))
}

/// `s` without the spaces that directly follow a space.
pub open spec fn spec_collapse_spaces(s: Seq<char>) -> Seq<char>
    decreases s.len(),
{
    if s.len() == 0 {
        s
    } else if s.last() == ' ' && s.len() >= 2 && s[s.len() - 2] == ' ' {
        spec_collapse_spaces(s.drop_last())
    } else {
        spec_collapse_spaces(s.drop_last()).push(s.last())
    }
}

/// Line breaks and tabs turned into spaces, then runs of spaces collapsed.
pub open spec fn spec_collapse_whitespace(s: Seq<char>) -> Seq<char> {
    spec_collapse_spaces(spec_blank_controls(s))
}

/// Turns line breaks and tabs into spaces and collapses runs of spaces.
pub fn collapse_whitespace(text: &str) -> (out: String)
    ensures
        out@ == spec_collapse_whitespace(text@),
{
    let chars = chars_of(text);
    let mut kept: Vec<char> = Vec::new();
    let mut after_space = false;
    let mut i: usize = 0;
    let ghost blanked = spec_blank_controls(text@);
    while i < chars.len()
        invariant
            i <= chars.len(),
            chars@ == text@,
            blanked == spec_blank_controls(text@),
            kept@ == spec_collapse_spaces(blanked.take(i as int)),
            after_space == (i > 0 && blanked[i - 1] == ' '),
        decreases chars.len() - i,
    {
        let c = if chars[i] == '\n' || chars[i] == '\t' {
            ' '
        } else {
            chars[i]
        };
        proof {
            assert(blanked.take(i + 1).drop_last() =~= blanked.take(i as int));
            assert(blanked.take(i + 1).last() == c);
            if i > 0 {
                assert(blanked.take(i + 1)[i - 1] == blanked[i - 1]);
            }
        }
        if !(c == ' ' && after_space) {
            kept.push(c);
        }
        after_space = c == ' ';
        i += 1;
    }
    proof {
        assert(blanked.take(i as int) =~= blanked);
    }
    string_of(&kept)
}

/// Whether `pattern` is a pattern that `regex::Regex::new` compiles. This
/// depends on the pattern alone.
pub uninterp spec fn regex_compiles(pattern: Seq<char>) -> bool;

/// What `Regex::replace_all` gives for the compiled `pattern`: `text` with
/// every match replaced by `replacement`.
pub uninterp spec fn regex_replaced(
    pattern: Seq<char>,
    text: Seq<char>,
    replacement: Seq<char>,
) -> Seq<char>;

/// Compiles `pattern` with `regex::Regex::new` and replaces all its matches
/// in `text` with `Regex::replace_all`. Compiling succeeds or fails by the
/// pattern alone, which `regex_compiles` names; replacing never fails, and
/// its result is named `regex_replaced`. Nothing else is claimed.
#[verifier::external_body]
fn replace_all_matches(pattern: &str, text: &str, replacement: &str) -> (r: Option<String>)
    ensures
        match r {
            Some(s) => regex_compiles(pattern@) && s@ == regex_replaced(
                pattern@,
                text@,
                replacement@,
            ),
            None => !regex_compiles(pattern@),
        },
{
    match regex::Regex::new(pattern) {
        Ok(re) => Some(re.replace_all(text, replacement).into_owned()),
        Err(_) => None,
    }
}

/// `text` without its web addresses.
pub open spec fn spec_strip_urls(text: Seq<char>) -> Seq<char> {
    regex_replaced(URL_PATTERN@, text, ""@)
}

/// The normal form of `text`: white space collapsed, web addresses removed,
/// ends trimmed. Whether there is one depends on the web-address pattern
/// alone, never on the text: `None` for every text where the pattern is
/// refused, `Some` for every text where it compiles.
pub open spec fn spec_normalize(text: Seq<char>) -> Option<Seq<char>> {
    if regex_compiles(URL_PATTERN@) {
        Some(spec_trim(spec_strip_urls(spec_collapse_whitespace(text))))
    } else {
        None
    }
}

/// The last step of `normalize`: trims what the replacement of web addresses
/// returned.
pub fn finish_normalize(replaced: Option<String>) -> (r: Option<String>)
    ensures
        match r {
            Some(s) => replaced is Some && s@ == spec_trim(replaced->0@),
            None => replaced is None,
        },
{
    match replaced {
        Some(s) => Some(trim(s.as_str())),
        None => None,
    }
}

/// Brings `text` into normal form.
pub fn normalize(text: &str) -> (r: Option<String>)
    ensures
        match r {
            Some(s) => spec_normalize(text@) == Some(s@),
            None => spec_normalize(text@) is None,
        },
{
    let collapsed = collapse_whitespace(text);
    let replaced = replace_all_matches(URL_PATTERN, collapsed.as_str(), "");
    finish_normalize(replaced)
}

} // verus!
