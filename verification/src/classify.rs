//! The token classifier: from the raw tokens of a template to its parts.

use vstd::prelude::*;
use crate::error::{CompileError, CompileErrorView, error_view};
use crate::part::{PartView, SqlPart, parts_view, text_view};
use crate::token::{RawToken, RawTokenView, tokens_view};

verus! {

/// The text of the error with which the syn crate refuses `text` as one
/// Rust expression; `None` where it parses it.
pub uninterp spec fn expression_error(text: Seq<char>) -> Option<Seq<char>>;

/// The value of the string literal that the syn crate reads `text` as;
/// `None` where it reads no string literal.
pub uninterp spec fn string_literal_value(text: Seq<char>) -> Option<Seq<char>>;

/// The base-10 digits of the integer literal that the syn crate reads
/// `text` as; `None` where it reads no integer literal.
pub uninterp spec fn integer_literal_digits(text: Seq<char>) -> Option<Seq<char>>;

/// Calls `syn::parse_str` for `syn::Expr` on `text`, drops the expression
/// and takes the text that the error displays. The contract only names what
/// comes back.
#[verifier::external_body]
fn parse_expression(text: &str) -> (res: Result<(), String>)
    ensures
        error_view(res) == expression_error(text@),
{
    match syn::parse_str::<syn::Expr>(text) {
        Ok(_) => Ok(()),
        Err(error) => Err(error.to_string()),
    }
}

/// Calls `syn::parse_str` for `syn::LitStr` on `text` and, on the literal it
/// gives, `LitStr::value`. The contract only names what comes back.
#[verifier::external_body]
fn parse_string_literal(text: &str) -> (res: Option<String>)
    ensures
        text_view(res) == string_literal_value(text@),
{
    match syn::parse_str::<syn::LitStr>(text) {
        Ok(literal) => Some(literal.value()),
        Err(_) => None,
    }
}

/// Calls `syn::parse_str` for `syn::LitInt` on `text` and, on the literal it
/// gives, `LitInt::base10_digits`. The contract only names what comes back.
#[verifier::external_body]
fn parse_integer_literal(text: &str) -> (res: Option<String>)
    ensures
        text_view(res) == integer_literal_digits(text@),
{
    match syn::parse_str::<syn::LitInt>(text) {
        Ok(literal) => Some(literal.base10_digits().to_owned()),
        Err(_) => None,
    }
}

/// The parts of one template, in the order of its tokens.
#[derive(Debug, Clone, PartialEq, Eq)]
pub struct SqlInput {
    pub parts: Vec<SqlPart>,
}

impl View for SqlInput {
    type V = Seq<PartView>;

    open spec fn view(&self) -> Seq<PartView> {
        parts_view(self.parts@)
    }
}

/// Whether `text` stands between two double quotes.
pub open spec fn is_quoted(text: Seq<char>) -> bool {
    text.len() >= 2 && text[0] == '"' && text.last() == '"'
}

/// The part that the literal with the source text `text` becomes, where
/// `value` is its value as a string literal: a string literal by its value,
/// a text between double quotes without them, any other literal as it is.
pub open spec fn literal_part_given(text: Seq<char>, value: Option<Seq<char>>) -> PartView {
    match value {
        Some(value) => PartView::StringLiteral(value),
        None => if is_quoted(text) {
            PartView::StringLiteral(text.subrange(1, text.len() - 1))
        } else {
            PartView::Other(text)
        },
    }
}

/// The part that the literal with the source text `text` becomes.
pub open spec fn literal_part(text: Seq<char>) -> PartView {
    literal_part_given(text, string_literal_value(text))
}

/// The part that a dollar sign becomes, where `digits` are the digits of
/// the integer literal behind it: a placeholder with them, else a symbol.
pub open spec fn dollar_part_given(digits: Option<Seq<char>>) -> PartView {
    match digits {
        Some(digits) => PartView::Placeholder(seq!['$'] + digits),
        None => PartView::Punct('$'),
    }
}

/// Whether the syn crate parses `text` as one Rust expression.
pub open spec fn expression_parses(text: Seq<char>) -> bool {
    expression_error(text) is None
}

/// The part that the brace group at `position` with the content `content`
/// becomes, where `error` says why the content is not one expression: an
/// interpolation, or the malformed template with that position and reason.
pub open spec fn brace_part_given(
    content: Seq<char>,
    position: nat,
    error: Option<Seq<char>>,
) -> Result<PartView, CompileErrorView> {
    match error {
        None => Ok(PartView::Interpolation(content)),
        Some(reason) => Err(CompileErrorView::TemplateMalformed { position, reason }),
    }
}

/// The digits of the integer literal at `at`, where there is one.
pub open spec fn marker_digits(tokens: Seq<RawTokenView>, at: int) -> Option<Seq<char>> {
    if 0 <= at < tokens.len() {
        match tokens[at] {
            RawTokenView::Literal(text) => integer_literal_digits(text),
            _ => None,
        }
    } else {
        None
    }
}

/// How many tokens the part that begins at `at` takes: two for a dollar
/// sign with the integer literal behind it, else one.
pub open spec fn tokens_taken(tokens: Seq<RawTokenView>, at: int) -> int {
    if tokens[at] == RawTokenView::Punct('$') && marker_digits(tokens, at + 1) is Some {
        2
    } else {
        1
    }
}

/// The part that begins at `at`, or the error of the brace group that
/// stands there and does not hold one expression.
pub open spec fn part_at(tokens: Seq<RawTokenView>, at: int) -> Result<
    PartView,
    CompileErrorView,
> {
    match tokens[at] {
        RawTokenView::Braced(content) => brace_part_given(
            content,
            at as nat,
            expression_error(content),
        ),
        RawTokenView::Ident(name) => Ok(PartView::Keyword(name)),
        RawTokenView::Punct(c) => if c == '$' {
            Ok(dollar_part_given(marker_digits(tokens, at + 1)))
        } else {
            Ok(PartView::Punct(c))
        },
        RawTokenView::Literal(text) => Ok(literal_part(text)),
    }
}

/// `rest` with `parts` in front of what it holds where it is `Ok`.
pub open spec fn prefixed(
    parts: Seq<PartView>,
    rest: Result<Seq<PartView>, CompileErrorView>,
) -> Result<Seq<PartView>, CompileErrorView> {
    match rest {
        Ok(more) => Ok(parts + more),
        Err(error) => Err(error),
    }
}

/// The parts of the tokens from `start` on, or the error of the first brace
/// group among them that does not hold one expression.
pub open spec fn classified_from(tokens: Seq<RawTokenView>, start: nat) -> Result<
    Seq<PartView>,
    CompileErrorView,
>
    decreases tokens.len() - start,
{
    if start >= tokens.len() {
        Ok(Seq::empty())
    } else {
        match part_at(tokens, start as int) {
            Err(error) => Err(error),
            Ok(part) => prefixed(
                seq![part],
                classified_from(tokens, (start + tokens_taken(tokens, start as int)) as nat),
            ),
        }
    }
}

/// The parts of `tokens`, or the error of the first brace group that does
/// not hold one expression: its position and the reason.
pub open spec fn classified(tokens: Seq<RawTokenView>) -> Result<Seq<PartView>, CompileErrorView> {
    classified_from(tokens, 0)
}

/// Whether `res` is the classification `outcome`.
pub open spec fn is_classification(
    res: Result<SqlInput, CompileError>,
    outcome: Result<Seq<PartView>, CompileErrorView>,
) -> bool {
    match outcome {
        Ok(parts) => res matches Ok(input) && input@ == parts,
        Err(error) => res matches Err(made) && made@ == error,
    }
}

/// Classification fails exactly where some brace group does not hold one
/// expression, and then with the error of the first such group; no other
/// token makes it fail.
pub proof fn lemma_fails_at_brace_groups(tokens: Seq<RawTokenView>, start: nat)
    ensures
        classified_from(tokens, start) is Err <==> exists|at: int|
            start <= at < tokens.len() && #[trigger] tokens[at] is Braced && !expression_parses(
                tokens[at]->Braced_0,
            ),
        classified_from(tokens, start) matches Err(error) ==> {
            &&& error is TemplateMalformed
            &&& start <= error->TemplateMalformed_position < tokens.len()
            &&& tokens[error->TemplateMalformed_position as int] is Braced
            &&& expression_error(tokens[error->TemplateMalformed_position as int]->Braced_0) == Some(
                error->TemplateMalformed_reason,
            )
            &&& forall|at: int|
                start <= at < error->TemplateMalformed_position && #[trigger] tokens[at] is Braced
                    ==> expression_parses(tokens[at]->Braced_0)
        },
    decreases tokens.len() - start,
{
    if start < tokens.len() {
        let next = (start + tokens_taken(tokens, start as int)) as nat;
        lemma_fails_at_brace_groups(tokens, next);
        if part_at(tokens, start as int) is Ok {
            if classified_from(tokens, next) is Err {
                let at = choose|at: int|
                    next <= at < tokens.len() && #[trigger] tokens[at] is Braced
                        && !expression_parses(tokens[at]->Braced_0);
                assert(start <= at < tokens.len() && tokens[at] is Braced && !expression_parses(
                    tokens[at]->Braced_0,
                ));
            } else {
                assert forall|at: int|
                    start <= at < tokens.len() && #[trigger] tokens[at] is Braced implies
                    expression_parses(tokens[at]->Braced_0) by {
                    if at >= next {
                    } else if at == start {
                    } else {
                        assert(tokens[start as int] == RawTokenView::Punct('$'));
                        assert(marker_digits(tokens, at) is Some);
                    }
                }
            }
            if classified_from(tokens, start) is Err {
                let error = classified_from(tokens, start)->Err_0;
                assert forall|at: int|
                    start <= at < error->TemplateMalformed_position && #[trigger] tokens[at] is Braced implies
                    expression_parses(tokens[at]->Braced_0) by {
                    if at >= next {
                    } else if at == start {
                    } else {
                        assert(marker_digits(tokens, at) is Some);
                    }
                }
            }
        } else {
            assert(tokens[start as int] is Braced && !expression_parses(
                tokens[start as int]->Braced_0,
            ));
        }
    }
}

/// The number of tokens that `parts` are made of: two for a placeholder,
/// the dollar sign and the integer, and one for any other part.
pub open spec fn tokens_of(parts: Seq<PartView>) -> nat
    decreases parts.len(),
{
    if parts.len() == 0 {
        0
    } else if parts.last() is Placeholder {
        tokens_of(parts.drop_last()) + 2
    } else {
        tokens_of(parts.drop_last()) + 1
    }
}

/// The tokens of a part and of the parts behind it are those of both.
proof fn lemma_tokens_of_prefixed(part: PartView, more: Seq<PartView>)
    ensures
        tokens_of(seq![part] + more) == tokens_of(seq![part]) + tokens_of(more),
    decreases more.len(),
{
    if more.len() == 0 {
        assert(seq![part] + more =~= seq![part]);
    } else {
        assert((seq![part] + more).drop_last() =~= seq![part] + more.drop_last());
        lemma_tokens_of_prefixed(part, more.drop_last());
    }
}

/// Every token goes into exactly one part: the parts that the tokens from
/// `start` on are classified to are made of as many tokens as there are.
pub proof fn lemma_every_token_once(tokens: Seq<RawTokenView>, start: nat)
    requires
        start <= tokens.len(),
        classified_from(tokens, start) is Ok,
    ensures
        tokens_of(classified_from(tokens, start)->Ok_0) == tokens.len() - start,
    decreases tokens.len() - start,
{
    if start < tokens.len() {
        let part = part_at(tokens, start as int)->Ok_0;
        let next = (start + tokens_taken(tokens, start as int)) as nat;
        let more = classified_from(tokens, next)->Ok_0;
        lemma_every_token_once(tokens, next);
        lemma_tokens_of_prefixed(part, more);
        reveal_with_fuel(tokens_of, 2);
        assert(seq![part].drop_last() =~= Seq::<PartView>::empty());
    }
}

/// The part that the literal with the source text `text` becomes, where
/// `value` is its value as a string literal.
pub fn literal_part_of(text: &str, value: Option<String>) -> (part: SqlPart)
    ensures
        part@ == literal_part_given(text@, text_view(value)),
{
    match value {
        Some(value) => SqlPart::StringLiteral(value),
        None => {
            let n: usize = text.unicode_len();
            if n >= 2 && text.get_char(0) == '"' && text.get_char(n - 1) == '"' {
                SqlPart::StringLiteral(text.substring_char(1, n - 1).to_owned())
            } else {
                SqlPart::Other(text.to_owned())
            }
        },
    }
}

/// The part that a dollar sign becomes, where `digits` are the digits of
/// the integer literal behind it.
pub fn dollar_part_of(digits: Option<String>) -> (part: SqlPart)
    ensures
        part@ == dollar_part_given(text_view(digits)),
{
    match digits {
        Some(digits) => {
            let mut marker = String::new();
            marker.push('$');
            marker.append(digits.as_str());
            assert(marker@ =~= seq!['$'] + digits@);
            SqlPart::Placeholder(marker)
        },
        None => SqlPart::Punct('$'),
    }
}

/// The part that the brace group at `position` with the content `content`
/// becomes, where `parsed` says whether the content is one expression, and
/// why it is not.
pub fn brace_part_of(content: &str, position: usize, parsed: Result<(), String>) -> (res: Result<
    SqlPart,
    CompileError,
>)
    ensures
        match brace_part_given(content@, position as nat, error_view(parsed)) {
            Ok(part) => res matches Ok(made) && made@ == part,
            Err(error) => res matches Err(made) && made@ == error,
        },
{
    match parsed {
        Ok(()) => Ok(SqlPart::Interpolation(content.to_owned())),
        Err(reason) => Err(CompileError::TemplateMalformed { position, reason }),
    }
}

/// Whether `text` is one expression, and why it is not.
pub fn check_expression(text: &str) -> (res: Result<(), String>)
    ensures
        error_view(res) == expression_error(text@),
{
    parse_expression(text)
}

/// The part that the literal with the source text `text` becomes.
pub fn classify_literal(text: &str) -> (part: SqlPart)
    ensures
        part@ == literal_part(text@),
{
    literal_part_of(text, parse_string_literal(text))
}

/// The digits of the integer literal at `at`, where there is one.
pub fn digits_at(tokens: &Vec<RawToken>, at: usize) -> (res: Option<String>)
    ensures
        text_view(res) == marker_digits(tokens_view(tokens@), at as int),
{
    if at < tokens.len() {
        match &tokens[at] {
            RawToken::Literal(text) => parse_integer_literal(text.as_str()),
            _ => None,
        }
    } else {
        None
    }
}

impl SqlInput {
    /// Classifies `tokens`. It fails at the first brace group that does not
    /// hold one expression, with the position of that group and the reason.
    pub fn parse(tokens: &Vec<RawToken>) -> (res: Result<SqlInput, CompileError>)
        ensures
            is_classification(res, classified(tokens_view(tokens@))),
    {
        let ghost raw = tokens_view(tokens@);
        let mut parts: Vec<SqlPart> = Vec::new();
        let mut i: usize = 0;
        while i < tokens.len()
            invariant
                i <= tokens.len(),
                raw == tokens_view(tokens@),
                classified(raw) == prefixed(parts_view(parts@), classified_from(raw, i as nat)),
            decreases tokens.len() - i,
        {
            let ghost before = parts_view(parts@);
            let ghost rest = classified_from(raw, (i + tokens_taken(raw, i as int)) as nat);
            let mut taken: usize = 1;
            let part = match &tokens[i] {
                RawToken::Braced(content) => {
                    let parsed = check_expression(content.as_str());
                    match brace_part_of(content.as_str(), i, parsed) {
                        Ok(part) => part,
                        Err(error) => {
                            return Err(error);
                        },
                    }
                },
                RawToken::Ident(name) => SqlPart::Keyword(name.clone()),
                RawToken::Punct(c) => {
                    if *c == '$' {
                        let digits = digits_at(tokens, i + 1);
                        if digits.is_some() {
                            taken = 2;
                        }
                        dollar_part_of(digits)
                    } else {
                        SqlPart::Punct(*c)
                    }
                },
                RawToken::Literal(text) => classify_literal(text.as_str()),
            };
            proof {
                assert(part_at(raw, i as int) == Ok::<PartView, CompileErrorView>(part@));
                assert(taken == tokens_taken(raw, i as int));
            }
            parts.push(part);
            i += taken;
            proof {
                assert(parts_view(parts@) =~= before.push(part@));
                match rest {
                    Ok(more) => {
                        assert(before + (seq![part@] + more) =~= before.push(part@) + more);
                    },
                    Err(_) => {},
                }
            }
        }
        assert(parts_view(parts@) + Seq::<PartView>::empty() =~= parts_view(parts@));
        Ok(SqlInput { parts })
    }
}

} // verus!
