//! The raw tokens of a template, as a token source hands them over: one by
//! one, the delimiters of a group and the tokens between them too. Only a
//! brace group comes as one token.

use vstd::prelude::*;

verus! {

/// One raw token of a template.
#[derive(Debug, Clone, PartialEq, Eq)]
pub enum RawToken {
    /// A brace-delimited group, with the source text between its braces.
    Braced(String),
    /// An identifier or reserved word.
    Ident(String),
    /// A single symbol character; a parenthesis or a bracket is one.
    Punct(char),
    /// A literal, with its source text (a string literal with its quotes).
    Literal(String),
}

/// The mathematical value of a [`RawToken`].
pub enum RawTokenView {
    Braced(Seq<char>),
    Ident(Seq<char>),
    Punct(char),
    Literal(Seq<char>),
}

impl View for RawToken {
    type V = RawTokenView;

    open spec fn view(&self) -> RawTokenView {
        match self {
            RawToken::Braced(text) => RawTokenView::Braced(text@),
            RawToken::Ident(text) => RawTokenView::Ident(text@),
            RawToken::Punct(c) => RawTokenView::Punct(*c),
            RawToken::Literal(text) => RawTokenView::Literal(text@),
        }
    }
}

/// The values of the tokens of `tokens`, in order.
pub open spec fn tokens_view(tokens: Seq<RawToken>) -> Seq<RawTokenView> {
    tokens.map_values(|t: RawToken| t@)
}

} // verus!
