//! The spacing engine: one pass over a template that rebuilds the display
//! text and the validation text with the same spacing decisions.

use vstd::prelude::*;
use crate::markers::{markers_neutralized, neutralize_markers};
use crate::part::{PartView, Projection, SqlPart, interpolations, parts_view, strings_view};
use crate::text::{
    char_is_whitespace, contains_char, first_char, first_of, is_whitespace, last_char, last_of,
    normalize_quotes, quotes_normalized, trim, trimmed,
};

verus! {

/// The characters next to which no space is inserted.
#[derive(Debug, Clone, PartialEq, Eq)]
pub struct SpacingRules {
    /// No space is inserted before a token that begins with one of these.
    pub no_space_before: Vec<char>,
    /// No space is inserted after a token that ends with one of these.
    pub no_space_after: Vec<char>,
}

/// The mathematical value of [`SpacingRules`].
pub struct SpacingRulesView {
    pub no_space_before: Seq<char>,
    pub no_space_after: Seq<char>,
}

impl View for SpacingRules {
    type V = SpacingRulesView;

    open spec fn view(&self) -> SpacingRulesView {
        SpacingRulesView {
            no_space_before: self.no_space_before@,
            no_space_after: self.no_space_after@,
        }
    }
}

/// The canonical rules: no space before `.`, `,`, `;` and `)`, and none
/// after `.`, `$`, `;` and `(`.
pub open spec fn canonical_rules() -> SpacingRulesView {
    SpacingRulesView {
        no_space_before: seq!['.', ',', ';', ')'],
        no_space_after: seq!['.', '$', ';', '('],
    }
}

/// What the spacing engine makes of a template.
#[derive(Debug, Clone, PartialEq, Eq)]
pub struct Projections {
    /// The display text, trimmed and with single quotes only.
    pub display: String,
    /// The validation text, trimmed and after the pass on bind markers.
    pub validation: String,
    /// The expressions of the interpolations, in the order of the template.
    pub interpolations: Vec<String>,
}

/// Whether a space goes between a text that ends with `prev` and a token
/// that begins with `next`.
pub open spec fn space_between(
    rules: SpacingRulesView,
    prev: Option<char>,
    next: Option<char>,
) -> bool {
    &&& prev matches Some(p)
    &&& next matches Some(n)
    &&& !is_whitespace(p)
    &&& !rules.no_space_after.contains(p)
    &&& !rules.no_space_before.contains(n)
}

/// What is inserted between the text `so_far` and the token `token`: one
/// space or nothing.
pub open spec fn gap(rules: SpacingRulesView, so_far: Seq<char>, token: Seq<char>) -> Seq<char> {
    if space_between(rules, last_of(so_far), first_of(token)) {
        seq![' ']
    } else {
        Seq::empty()
    }
}

/// The text of `projection` for `parts`, before it is trimmed. A gap is
/// decided by what the display text holds, for both projections.
pub open spec fn spaced(
    rules: SpacingRulesView,
    parts: Seq<PartView>,
    projection: Projection,
) -> Seq<char>
    decreases parts.len(),
{
    if parts.len() == 0 {
        Seq::empty()
    } else {
        let before = parts.drop_last();
        spaced(rules, before, projection) + gap(
            rules,
            spaced(rules, before, Projection::Display),
            parts.last().display(),
        ) + parts.last().rendering(projection)
    }
}

/// The display text of `parts`: trimmed, and with single quotes only.
pub open spec fn display_string(rules: SpacingRulesView, parts: Seq<PartView>) -> Seq<char> {
    quotes_normalized(trimmed(spaced(rules, parts, Projection::Display)))
}

/// The validation text of `parts`, trimmed, before the pass that takes the
/// bind markers out.
pub open spec fn validation_text(rules: SpacingRulesView, parts: Seq<PartView>) -> Seq<char> {
    trimmed(spaced(rules, parts, Projection::Validation))
}

/// The validation text of `parts` as it is checked against the grammar.
pub open spec fn validation_string(rules: SpacingRulesView, parts: Seq<PartView>) -> Seq<char> {
    markers_neutralized(validation_text(rules, parts))
}

/// Whether `out` is what the spacing engine has to make of `parts` under
/// `rules`.
pub open spec fn is_reconstruction(
    out: Projections,
    rules: SpacingRulesView,
    parts: Seq<PartView>,
) -> bool {
    &&& out.display@ == display_string(rules, parts)
    &&& out.validation@ == validation_string(rules, parts)
    &&& strings_view(out.interpolations@) == interpolations(parts)
}

impl SpacingRules {
    /// The canonical rules.
    pub fn canonical() -> (rules: SpacingRules)
        ensures
            rules@ == canonical_rules(),
    {
        let mut no_space_before: Vec<char> = Vec::new();
        no_space_before.push('.');
        no_space_before.push(',');
        no_space_before.push(';');
        no_space_before.push(')');
        let mut no_space_after: Vec<char> = Vec::new();
        no_space_after.push('.');
        no_space_after.push('$');
        no_space_after.push(';');
        no_space_after.push('(');
        assert(no_space_before@ =~= seq!['.', ',', ';', ')']);
        assert(no_space_after@ =~= seq!['.', '$', ';', '(']);
        SpacingRules { no_space_before, no_space_after }
    }

    /// Tells whether a space goes between a text that ends with `prev` and a
    /// token that begins with `next`.
    pub fn needs_space(&self, prev: Option<char>, next: Option<char>) -> (b: bool)
        ensures
            b == space_between(self@, prev, next),
    {
        match (prev, next) {
            (Some(p), Some(n)) => !char_is_whitespace(p) && !contains_char(&self.no_space_after, p)
                && !contains_char(&self.no_space_before, n),
            _ => false,
        }
    }

    /// Rebuilds the display text and the validation text of `parts` and
    /// collects the expressions of its interpolations.
    pub fn reconstruct(&self, parts: &Vec<SqlPart>) -> (out: Projections)
        ensures
            is_reconstruction(out, self@, parts_view(parts@)),
    {
        let ghost template = parts_view(parts@);
        let mut display = String::new();
        let mut validation = String::new();
        let mut found: Vec<String> = Vec::new();
        let mut last: Option<char> = None;
        let mut i: usize = 0;
        while i < parts.len()
            invariant
                i <= parts.len(),
                template == parts_view(parts@),
                display@ == spaced(self@, template.take(i as int), Projection::Display),
                validation@ == spaced(self@, template.take(i as int), Projection::Validation),
                strings_view(found@) == interpolations(template.take(i as int)),
                last == last_of(display@),
            decreases parts.len() - i,
        {
            let part = &parts[i];
            let shown = part.display_text();
            let checked = part.validation_text();
            proof {
                assert(template.take(i + 1).drop_last() =~= template.take(i as int));
                assert(template.take(i + 1).last() == part@);
            }
            if self.needs_space(last, first_char(shown.as_str())) {
                display.push(' ');
                validation.push(' ');
            }
            display.append(shown.as_str());
            validation.append(checked.as_str());
            match last_char(shown.as_str()) {
                Some(c) => {
                    last = Some(c);
                },
                None => {},
            }
            match part {
                SqlPart::Interpolation(expression) => {
                    found.push(expression.clone());
                    assert(strings_view(found@) =~= interpolations(template.take(i + 1)));
                },
                _ => {},
            }
            assert(display@ =~= spaced(self@, template.take(i + 1), Projection::Display));
            assert(validation@ =~= spaced(self@, template.take(i + 1), Projection::Validation));
            i += 1;
        }
        assert(template.take(parts.len() as int) =~= template);
        let display = normalize_quotes(trim(display.as_str()).as_str());
        let validation = neutralize_markers(trim(validation.as_str()).as_str());
        Projections { display, validation, interpolations: found }
    }
}

} // verus!
