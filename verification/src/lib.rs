//! A compiler for inline SQL templates: it classifies the raw tokens of a
//! template, rebuilds the query text with its spacing, checks that text
//! against a generic SQL grammar and describes the string-building artifact.

use vstd::prelude::*;
use crate::artifact::{Artifact, ArtifactView, artifact_of};
use crate::classify::{SqlInput, classified};
use crate::error::{CompileError, CompileErrorView};
use crate::part::{PartView, interpolations, strings_view};
use crate::spacing::{
    Projections, SpacingRules, SpacingRulesView, canonical_rules, display_string,
    validation_string,
};
use crate::token::{RawToken, RawTokenView, tokens_view};
use crate::validate::{grammar_error, validate, verdict_given};

pub mod artifact;
pub mod classify;
pub mod error;
pub mod laws;
pub mod markers;
pub mod part;
pub mod spacing;
pub mod text;
pub mod token;
pub mod validate;

verus! {

/// What `parts` compiles to under `rules`: its artifact, or the failed
/// validation with the grammar's error and the text that was checked.
pub open spec fn compiled(rules: SpacingRulesView, parts: Seq<PartView>) -> Result<
    ArtifactView,
    CompileErrorView,
> {
    match verdict_given(
        validation_string(rules, parts),
        grammar_error(validation_string(rules, parts)),
    ) {
        Ok(()) => Ok(artifact_of(display_string(rules, parts), interpolations(parts))),
        Err(error) => Err(error),
    }
}

/// What the template with the tokens `tokens` compiles to under `rules`:
/// the error of the classifier, or what its parts compile to.
pub open spec fn compiled_tokens(rules: SpacingRulesView, tokens: Seq<RawTokenView>) -> Result<
    ArtifactView,
    CompileErrorView,
> {
    match classified(tokens) {
        Ok(parts) => compiled(rules, parts),
        Err(error) => Err(error),
    }
}

/// Whether `res` is the outcome `outcome`.
pub open spec fn is_outcome(
    res: Result<Artifact, CompileError>,
    outcome: Result<ArtifactView, CompileErrorView>,
) -> bool {
    match outcome {
        Ok(artifact) => res matches Ok(made) && made@ == artifact,
        Err(error) => res matches Err(made) && made@ == error,
    }
}

/// The outcome for the rebuilt texts `texts`, where `verdict` is what the
/// check of the validation text gave: the artifact of the display text and
/// the expressions, or the error of the check.
pub fn outcome_of(texts: Projections, verdict: Result<(), CompileError>) -> (res: Result<
    Artifact,
    CompileError,
>)
    ensures
        match verdict {
            Ok(()) => res matches Ok(made) && made@ == artifact_of(
                texts.display@,
                strings_view(texts.interpolations@),
            ),
            Err(error) => res == Err::<Artifact, CompileError>(error),
        },
{
    match verdict {
        Ok(()) => Ok(Artifact::generate(texts.display, texts.interpolations)),
        Err(error) => Err(error),
    }
}

/// Compiles a classified template under `rules`: rebuilds its two texts,
/// checks the validation text once against the grammar and, where that
/// passes, describes the artifact.
pub fn compile(input: &SqlInput, rules: &SpacingRules) -> (res: Result<Artifact, CompileError>)
    ensures
        is_outcome(res, compiled(rules@, input@)),
{
    let texts = rules.reconstruct(&input.parts);
    let verdict = validate(texts.validation.as_str());
    outcome_of(texts, verdict)
}

/// Compiles the template with the raw tokens `input` under the canonical
/// spacing rules. It fails where a brace group does not hold one
/// expression, with the position of the first such group and the reason,
/// and where the grammar does not accept the validation text, with the
/// grammar's error and that text.
pub fn sql(input: Vec<RawToken>) -> (res: Result<Artifact, CompileError>)
    ensures
        is_outcome(res, compiled_tokens(canonical_rules(), tokens_view(input@))),
{
    match SqlInput::parse(&input) {
        Ok(template) => compile(&template, &SpacingRules::canonical()),
        Err(error) => Err(error),
    }
}

} // verus!
