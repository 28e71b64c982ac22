//! The registry of component stories shown by the component preview pages.
use vstd::prelude::*;

use crate::features::{button, header};

verus! {

/// A story as listed on the preview index.
#[derive(Debug, Clone, PartialEq, Eq)]
pub struct Story {
    /// Story identifier, used in preview URLs.
    pub name: &'static str,
    /// One-line description shown beside the name.
    pub description: &'static str,
}

/// All registered stories, in listing order.
pub fn get_all_stories() -> (r: Vec<Story>)
    ensures
        r.len() == 2,
        r[0].name@ == "button"@,
        r[0].description@ == "Button component with link and accessibility support"@,
        r[1].name@ == "header"@,
        r[1].description@ == "Header component with headline and call-to-action button"@,
{
    vec![
        Story {
            name: button::NAME,
            description: "Button component with link and accessibility support",
        },
        Story {
            name: header::NAME,
            description: "Header component with headline and call-to-action button",
        },
    ]
}

/// Names what `char::to_uppercase` makes of a character.
pub uninterp spec fn upper_of(c: char) -> Seq<char>;

/// Relies on `char::to_uppercase`: the uppercase mapping of `c`, which is one
/// or more characters.
#[verifier::external_body]
fn uppercase(c: char) -> (r: String)
    ensures
        r@ == upper_of(c),
        r@.len() >= 1,
{
    c.to_uppercase().collect::<String>()
}

/// `s` with its first character replaced by `head`; an empty `s` stays empty.
pub open spec fn with_head(s: Seq<char>, head: Seq<char>) -> Seq<char> {
    if s.len() == 0 {
        s
    } else {
        head + s.subrange(1, s.len() as int)
    }
}

/// Replaces the first character of `s` by the text `head`.
pub fn replace_first(s: &str, head: String) -> (r: String)
    ensures
        r@ == with_head(s@, head@),
{
    if s.is_empty() {
        String::new()
    } else {
        let rest = s.substring_char(1, s.unicode_len());
        head.concat(rest)
    }
}

/// `s` with its first character in upper case, for titles.
pub fn capitalize_first(s: &str) -> (r: String)
    ensures
        s@.len() == 0 ==> r@.len() == 0,
        s@.len() > 0 ==> r@ == with_head(s@, upper_of(s@[0])),
{
    if s.is_empty() {
        String::new()
    } else {
        let head = uppercase(s.get_char(0));
        replace_first(s, head)
    }
}

} // verus!
