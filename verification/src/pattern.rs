//! The portal's markup patterns, and the one place where the regular
//! expression engine is called.

use vstd::prelude::*;

verus! {

/// The login token inside the inline script of the login-check page.
pub const MAGIC_PATTERN: &'static str = r"url:'.+id='\s+\+\s+'(.+)',?";

/// The display name: the form field `stdName` and, some lines below, its value.
pub const NAME_PATTERN: &'static str = r"name: ?'stdName',(\r\n.+)+ +value: '(.+)'";

/// The seat count: a quoted key `Count`, a colon and a decimal integer.
pub const COUNT_PATTERN: &'static str = r#"['"]Count['"] *: *([0-9]+)"#;

/// An arithmetic challenge: one digit, one of `+`, `x`, `-`, one digit.
pub const CALC_PATTERN: &'static str = r"([0-9])([+x\-])([0-9])";

/// What the regular expression engine finds for `pattern` in `haystack`:
/// `None` where the pattern does not compile or matches nowhere, else the
/// texts of the capture groups of the first match, the whole match at
/// index 0 and `None` for a group that took no part in it. With
/// `multi_line`, `^` and `$` match at line breaks too.
pub uninterp spec fn capture_groups(
    pattern: Seq<char>,
    multi_line: bool,
    haystack: Seq<char>,
) -> Option<Seq<Option<Seq<char>>>>;

/// The capture groups as sequences of characters.
pub open spec fn groups_view(groups: Seq<Option<String>>) -> Seq<Option<Seq<char>>> {
    Seq::new(
        groups.len(),
        |i: int|
            match groups[i] {
                Some(s) => Some(s@),
                None => None,
            },
    )
}

/// The outcome of a search as sequences of characters.
pub open spec fn found_view(found: Option<Vec<Option<String>>>) -> Option<Seq<Option<Seq<char>>>> {
    match found {
        Some(groups) => Some(groups_view(groups@)),
        None => None,
    }
}

/// The text of group `index` of a search, if the search matched and the
/// group took part in the match.
pub open spec fn captured(found: Option<Seq<Option<Seq<char>>>>, index: int) -> Option<Seq<char>> {
    match found {
        Some(groups) => if 0 <= index < groups.len() {
            groups[index]
        } else {
            None
        },
        None => None,
    }
}

/// Calls `regex::RegexBuilder::new(pattern).multi_line(multi_line).build()`
/// and `regex::Regex::captures` on the outcome. Nothing is proved of the
/// engine: the contract only gives its answer the name `capture_groups`,
/// which is sound because the answer depends on the three arguments alone.
#[verifier::external_body]
pub(crate) fn captures(pattern: &str, multi_line: bool, haystack: &str) -> (found: Option<
    Vec<Option<String>>,
>)
    ensures
        found_view(found) == capture_groups(pattern@, multi_line, haystack@),
{
    let re = regex::RegexBuilder::new(pattern).multi_line(multi_line).build().ok()?;
    re.captures(haystack).map(
        |caps| caps.iter().map(|m| m.map(|m| m.as_str().to_owned())).collect(),
    )
}

/// Group `index` of a match, copied out.
pub fn group(groups: &Vec<Option<String>>, index: usize) -> (text: Option<String>)
    ensures
        match captured(Some(groups_view(groups@)), index as int) {
            Some(t) => text matches Some(s) && s@ == t,
            None => text is None,
        },
{
    if index < groups.len() {
        match &groups[index] {
            Some(s) => Some(s.clone()),
            None => None,
        }
    } else {
        None
    }
}

} // verus!
