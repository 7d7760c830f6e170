//! The check of the validation text against the generic SQL grammar.

use vstd::prelude::*;
use sqlparser::dialect::GenericDialect;
use sqlparser::parser::Parser;
use crate::error::{CompileError, CompileErrorView, error_view};

verus! {

/// The text of the error with which the sqlparser crate refuses `text` as a
/// list of statements in its generic dialect; `None` where it parses it.
pub uninterp spec fn grammar_error(text: Seq<char>) -> Option<Seq<char>>;

/// Calls `sqlparser::parser::Parser::parse_sql` with `GenericDialect` on
/// `text`, drops the statements and takes the text that the error displays.
/// The contract only names what comes back.
#[verifier::external_body]
fn parse_statements(text: &str) -> (res: Result<(), String>)
    ensures
        error_view(res) == grammar_error(text@),
{
    match Parser::parse_sql(&GenericDialect {}, text) {
        Ok(_) => Ok(()),
        Err(error) => Err(error.to_string()),
    }
}

/// Whether the grammar accepts `text`.
pub open spec fn grammar_accepts(text: Seq<char>) -> bool {
    grammar_error(text) is None
}

/// What the check of `text` gives, where `error` is the grammar's error:
/// the failed validation holds that error and `text`.
pub open spec fn verdict_given(text: Seq<char>, error: Option<Seq<char>>) -> Result<
    (),
    CompileErrorView,
> {
    match error {
        None => Ok(()),
        Some(reason) => Err(CompileErrorView::GrammarValidationFailed { reason, checked: text }),
    }
}

/// Whether `res` is the verdict `verdict`.
pub open spec fn is_verdict(
    res: Result<(), CompileError>,
    verdict: Result<(), CompileErrorView>,
) -> bool {
    match verdict {
        Ok(()) => res is Ok,
        Err(error) => res matches Err(made) && made@ == error,
    }
}

/// The verdict on `text`, where `parsed` says whether the grammar accepts
/// it, and why it does not: the error holds that reason and `text`.
pub fn verdict_of(text: &str, parsed: Result<(), String>) -> (res: Result<(), CompileError>)
    ensures
        is_verdict(res, verdict_given(text@, error_view(parsed))),
{
    match parsed {
        Ok(()) => Ok(()),
        Err(reason) => Err(
            CompileError::GrammarValidationFailed { reason, checked: text.to_owned() },
        ),
    }
}

/// Checks `text` against the grammar. The error holds the grammar's own
/// error and `text`.
pub fn validate(text: &str) -> (res: Result<(), CompileError>)
    ensures
        is_verdict(res, verdict_given(text@, grammar_error(text@))),
{
    verdict_of(text, parse_statements(text))
}

} // verus!
