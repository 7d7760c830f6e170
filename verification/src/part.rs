//! The parts of a template and how each is rendered.

use vstd::prelude::*;

verus! {

/// One classified part of a template.
#[derive(Debug, Clone, PartialEq, Eq)]
pub enum SqlPart {
    /// A bare identifier or reserved word, used as it is.
    Keyword(String),
    /// An embedded host expression, with its source text.
    Interpolation(String),
    /// Literal text, without its quotes.
    StringLiteral(String),
    /// A positional bind marker such as `$1`.
    Placeholder(String),
    /// A single symbol character.
    Punct(char),
    /// Any other token, passed through as it is.
    Other(String),
}

/// The mathematical value of a [`SqlPart`].
pub enum PartView {
    Keyword(Seq<char>),
    Interpolation(Seq<char>),
    StringLiteral(Seq<char>),
    Placeholder(Seq<char>),
    Punct(char),
    Other(Seq<char>),
}

/// The two texts that are rebuilt from one template.
#[derive(Debug, Clone, Copy, PartialEq, Eq, Structural)]
pub enum Projection {
    /// The text that is handed out.
    Display,
    /// The text that is checked against the grammar.
    Validation,
}

impl View for SqlPart {
    type V = PartView;

    open spec fn view(&self) -> PartView {
        match self {
            SqlPart::Keyword(text) => PartView::Keyword(text@),
            SqlPart::Interpolation(expression) => PartView::Interpolation(expression@),
            SqlPart::StringLiteral(text) => PartView::StringLiteral(text@),
            SqlPart::Placeholder(marker) => PartView::Placeholder(marker@),
            SqlPart::Punct(c) => PartView::Punct(*c),
            SqlPart::Other(text) => PartView::Other(text@),
        }
    }
}

/// The values of the parts of `parts`, in order.
pub open spec fn parts_view(parts: Seq<SqlPart>) -> Seq<PartView> {
    parts.map_values(|p: SqlPart| p@)
}

/// The texts of `strings`, in order.
pub open spec fn strings_view(strings: Seq<String>) -> Seq<Seq<char>> {
    strings.map_values(|s: String| s@)
}

/// The text of `text`, where there is one.
pub open spec fn text_view(text: Option<String>) -> Option<Seq<char>> {
    match text {
        Some(held) => Some(held@),
        None => None,
    }
}

/// The slot that stands for an embedded expression in the display text.
pub open spec fn slot() -> Seq<char> {
    seq!['{', '}']
}

/// The literal that stands for an unresolved value in the validation text.
pub open spec fn dummy_literal() -> Seq<char> {
    "'dummy_value'"@
}

/// `text` between two `mark` characters.
pub open spec fn quoted(mark: char, text: Seq<char>) -> Seq<char> {
    seq![mark] + text + seq![mark]
}

impl PartView {
    /// How the part reads in the display text.
    pub open spec fn display(self) -> Seq<char> {
        match self {
            PartView::Keyword(text) => text,
            PartView::Interpolation(_) => slot(),
            PartView::StringLiteral(text) => quoted('"', text),
            PartView::Placeholder(marker) => marker,
            PartView::Punct(c) => seq![c],
            PartView::Other(text) => text,
        }
    }

    /// How the part reads in the validation text.
    pub open spec fn validation(self) -> Seq<char> {
        match self {
            PartView::Keyword(text) => text,
            PartView::Interpolation(_) => dummy_literal(),
            PartView::StringLiteral(text) => quoted('\'', text),
            PartView::Placeholder(_) => dummy_literal(),
            PartView::Punct(c) => seq![c],
            PartView::Other(text) => text,
        }
    }

    /// How the part reads in the text of `projection`.
    pub open spec fn rendering(self, projection: Projection) -> Seq<char> {
        match projection {
            Projection::Display => self.display(),
            Projection::Validation => self.validation(),
        }
    }
}

/// The expressions of the interpolations of `parts`, in the order of `parts`.
pub open spec fn interpolations(parts: Seq<PartView>) -> Seq<Seq<char>>
    decreases parts.len(),
{
    if parts.len() == 0 {
        Seq::empty()
    } else {
        let before = interpolations(parts.drop_last());
        match parts.last() {
            PartView::Interpolation(expression) => before.push(expression),
            _ => before,
        }
    }
}

/// `text` between two `mark` characters.
pub fn quote(mark: char, text: &str) -> (res: String)
    ensures
        res@ == quoted(mark, text@),
{
    let mut res = String::new();
    res.push(mark);
    res.append(text);
    res.push(mark);
    assert(res@ =~= quoted(mark, text@));
    res
}

/// The text of the single character `c`.
pub fn char_text(c: char) -> (res: String)
    ensures
        res@ == seq![c],
{
    let mut res = String::new();
    res.push(c);
    assert(res@ =~= seq![c]);
    res
}

impl SqlPart {
    /// The text of the part in the display text.
    pub fn display_text(&self) -> (text: String)
        ensures
            text@ == self@.display(),
    {
        match self {
            SqlPart::Keyword(text) => text.clone(),
            SqlPart::Interpolation(_) => {
                let mut text = String::new();
                text.push('{');
                text.push('}');
                assert(text@ =~= slot());
                text
            },
            SqlPart::StringLiteral(text) => quote('"', text.as_str()),
            SqlPart::Placeholder(marker) => marker.clone(),
            SqlPart::Punct(c) => char_text(*c),
            SqlPart::Other(text) => text.clone(),
        }
    }

    /// The text of the part in the validation text.
    pub fn validation_text(&self) -> (text: String)
        ensures
            text@ == self@.validation(),
    {
        match self {
            SqlPart::Keyword(text) => text.clone(),
            SqlPart::Interpolation(_) => "'dummy_value'".to_owned(),
            SqlPart::StringLiteral(text) => quote('\'', text.as_str()),
            SqlPart::Placeholder(_) => "'dummy_value'".to_owned(),
            SqlPart::Punct(c) => char_text(*c),
            SqlPart::Other(text) => text.clone(),
        }
    }
}

} // verus!
