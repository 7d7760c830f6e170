//! The pass that takes bind markers out of the validation text.

use vstd::prelude::*;
use regex::{NoExpand, Regex};
use crate::part::{dummy_literal, text_view};

verus! {

/// `text` with every match of the regular expression `pattern` replaced by
/// `replacement`, taken as it is, as the regex crate computes it; `None`
/// where the crate does not compile `pattern`.
pub uninterp spec fn matches_replaced(
    pattern: Seq<char>,
    text: Seq<char>,
    replacement: Seq<char>,
) -> Option<Seq<char>>;

/// Calls `regex::Regex::new` on `pattern` and, on the expression it gives,
/// `Regex::replace_all` on `text` with `replacement` as `regex::NoExpand`.
/// The contract only names what comes back: it is `None` where `pattern` is
/// refused, and else the text after the replacement.
#[verifier::external_body]
fn replace_matches(pattern: &str, text: &str, replacement: &str) -> (res: Option<String>)
    ensures
        text_view(res) == matches_replaced(pattern@, text@, replacement@),
{
    match Regex::new(pattern) {
        Ok(expression) => Some(expression.replace_all(text, NoExpand(replacement)).into_owned()),
        Err(_) => None,
    }
}

/// The pattern of a bind marker that a token source printed with white space
/// in it: a dollar sign, one white-space character, digits.
pub open spec fn marker_pattern() -> Seq<char> {
    r"\$\s\d+"@
}

/// `replaced` where there is one, else `text`.
pub open spec fn replaced_or(text: Seq<char>, replaced: Option<Seq<char>>) -> Seq<char> {
    match replaced {
        Some(replaced) => replaced,
        None => text,
    }
}

/// `text` with every such bind marker replaced by the dummy literal.
pub open spec fn markers_neutralized(text: Seq<char>) -> Seq<char> {
    replaced_or(text, matches_replaced(marker_pattern(), text, dummy_literal()))
}

/// The text after the pass: `replaced` where the pass made one, else `text`
/// as it was.
pub fn replaced_or_unchanged(text: &str, replaced: Option<String>) -> (res: String)
    ensures
        res@ == replaced_or(text@, text_view(replaced)),
{
    match replaced {
        Some(replaced) => replaced,
        None => text.to_owned(),
    }
}

/// Replaces every bind marker of the form `$ N` in `text` by the dummy
/// literal.
pub fn neutralize_markers(text: &str) -> (res: String)
    ensures
        res@ == markers_neutralized(text@),
{
    replaced_or_unchanged(text, replace_matches(r"\$\s\d+", text, "'dummy_value'"))
}

} // verus!
