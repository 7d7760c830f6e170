//! What holds of every template: where each part stands in the rebuilt
//! texts, how adjacent parts are separated, and which slot takes which
//! expression.

use vstd::prelude::*;
use crate::artifact::{Artifact, ArtifactView};
use crate::classify::{SqlInput, classified, is_classification};
use crate::error::{CompileError, CompileErrorView, diagnostic_prefix, diagnostic_separator};
use crate::{compiled, compiled_tokens, is_outcome};
use crate::part::{PartView, Projection, interpolations, quoted, slot, strings_view};
use crate::spacing::{
    Projections, SpacingRulesView, display_string, gap, is_reconstruction, spaced,
    validation_string, validation_text,
};
use crate::token::RawTokenView;
use crate::validate::{grammar_accepts, grammar_error};
use crate::text::{
    is_whitespace, last_of, leading_whitespace, quotes_normalized, trailing_whitespace, trimmed,
};

verus! {

/// Whether `piece` stands in `text` at the offset `at`.
pub open spec fn holds_at(text: Seq<char>, at: int, piece: Seq<char>) -> bool {
    &&& 0 <= at
    &&& at + piece.len() <= text.len()
    &&& text.subrange(at, at + piece.len()) == piece
}

/// The offset at which the part `i` of `parts` begins in the untrimmed text
/// of `projection`.
pub open spec fn raw_start(
    rules: SpacingRulesView,
    parts: Seq<PartView>,
    i: int,
    projection: Projection,
) -> int {
    let before = parts.take(i);
    (spaced(rules, before, projection).len() + gap(
        rules,
        spaced(rules, before, Projection::Display),
        parts[i].display(),
    ).len()) as int
}

/// The offset at which the part `i` of `parts` begins in the display text.
pub open spec fn display_start(rules: SpacingRulesView, parts: Seq<PartView>, i: int) -> int {
    raw_start(rules, parts, i, Projection::Display) - leading_whitespace(
        spaced(rules, parts, Projection::Display),
    )
}

/// The offset at which the part `i` of `parts` begins in the validation
/// text.
pub open spec fn validation_start(rules: SpacingRulesView, parts: Seq<PartView>, i: int) -> int {
    raw_start(rules, parts, i, Projection::Validation) - leading_whitespace(
        spaced(rules, parts, Projection::Validation),
    )
}

/// Whether `text` is not empty and neither begins nor ends with white space.
pub open spec fn is_solid(text: Seq<char>) -> bool {
    text.len() > 0 && !is_whitespace(text[0]) && !is_whitespace(text.last())
}

/// A piece stands behind the text it is appended to.
proof fn lemma_piece_behind(text: Seq<char>, piece: Seq<char>)
    ensures
        holds_at(text + piece, text.len() as int, piece),
{
    assert((text + piece).subrange(text.len() as int, (text.len() + piece.len()) as int) =~= piece);
}

/// What stands in a text stands at the same offset in every text that
/// begins with it.
proof fn lemma_holds_in_longer(short: Seq<char>, long: Seq<char>, at: int, piece: Seq<char>)
    requires
        short.is_prefix_of(long),
        holds_at(short, at, piece),
    ensures
        holds_at(long, at, piece),
{
    assert(long.subrange(at, at + piece.len()) =~= short.subrange(at, at + piece.len()));
}

/// The untrimmed text of the first `k + 1` parts is that of the first `k`,
/// the gap, and the rendering of the part `k`.
pub proof fn lemma_spaced_step(
    rules: SpacingRulesView,
    parts: Seq<PartView>,
    k: int,
    projection: Projection,
)
    requires
        0 <= k < parts.len(),
    ensures
        spaced(rules, parts.take(k + 1), projection) == spaced(rules, parts.take(k), projection)
            + gap(rules, spaced(rules, parts.take(k), Projection::Display), parts[k].display())
            + parts[k].rendering(projection),
{
    assert(parts.take(k + 1).drop_last() =~= parts.take(k));
    assert(parts.take(k + 1).last() == parts[k]);
}

/// The untrimmed text of the first `k` parts is a prefix of that of all.
pub proof fn lemma_spaced_prefix(
    rules: SpacingRulesView,
    parts: Seq<PartView>,
    k: int,
    projection: Projection,
)
    requires
        0 <= k <= parts.len(),
    ensures
        spaced(rules, parts.take(k), projection).is_prefix_of(spaced(rules, parts, projection)),
    decreases parts.len() - k,
{
    if k == parts.len() {
        assert(parts.take(k) =~= parts);
    } else {
        lemma_spaced_step(rules, parts, k, projection);
        lemma_spaced_prefix(rules, parts, k + 1, projection);
        let short = spaced(rules, parts.take(k), projection);
        let long = spaced(rules, parts.take(k + 1), projection);
        let all = spaced(rules, parts, projection);
        assert(short =~= long.subrange(0, short.len() as int));
        assert(short =~= all.subrange(0, short.len() as int));
    }
}

/// The rendering of each part stands in the untrimmed text, at its offset.
pub proof fn lemma_raw_occurrence(
    rules: SpacingRulesView,
    parts: Seq<PartView>,
    i: int,
    projection: Projection,
)
    requires
        0 <= i < parts.len(),
    ensures
        holds_at(
            spaced(rules, parts, projection),
            raw_start(rules, parts, i, projection),
            parts[i].rendering(projection),
        ),
{
    let head = spaced(rules, parts.take(i), projection) + gap(
        rules,
        spaced(rules, parts.take(i), Projection::Display),
        parts[i].display(),
    );
    let piece = parts[i].rendering(projection);
    lemma_spaced_step(rules, parts, i, projection);
    lemma_piece_behind(head, piece);
    lemma_spaced_prefix(rules, parts, i + 1, projection);
    lemma_holds_in_longer(
        spaced(rules, parts.take(i + 1), projection),
        spaced(rules, parts, projection),
        head.len() as int,
        piece,
    );
}

/// The leading white space of `s` ends at or before any character that is
/// not white space, and holds white space only.
pub proof fn lemma_leading_bound(s: Seq<char>, a: int)
    requires
        0 <= a < s.len(),
    ensures
        !is_whitespace(s[a]) ==> leading_whitespace(s) <= a,
        a < leading_whitespace(s) ==> is_whitespace(s[a]),
        leading_whitespace(s) <= s.len(),
    decreases s.len(),
{
    reveal_with_fuel(leading_whitespace, 2);
    if is_whitespace(s[0]) && a > 0 {
        lemma_leading_bound(s.drop_first(), a - 1);
    } else if is_whitespace(s[0]) && s.len() > 1 {
        lemma_leading_bound(s.drop_first(), 0);
    }
}

/// The trailing white space of `s` begins after any character that is not
/// white space.
pub proof fn lemma_trailing_bound(s: Seq<char>, a: int)
    requires
        0 <= a < s.len(),
    ensures
        !is_whitespace(s[a]) ==> trailing_whitespace(s) <= s.len() - 1 - a,
        trailing_whitespace(s) <= s.len(),
    decreases s.len(),
{
    reveal_with_fuel(trailing_whitespace, 2);
    if is_whitespace(s.last()) && a < s.len() - 1 {
        lemma_trailing_bound(s.drop_last(), a);
    } else if is_whitespace(s.last()) && s.len() > 1 {
        lemma_trailing_bound(s.drop_last(), 0);
    }
}

/// Trimming keeps a piece that neither begins nor ends with white space,
/// and moves it by the leading white space of the text.
pub proof fn lemma_trim_keeps(s: Seq<char>, at: int, piece: Seq<char>)
    requires
        holds_at(s, at, piece),
        is_solid(piece),
    ensures
        holds_at(trimmed(s), at - leading_whitespace(s), piece),
{
    let end = at + piece.len();
    assert(s[at] == s.subrange(at, end)[0]);
    assert(s[end - 1] == s.subrange(at, end)[piece.len() - 1]);
    lemma_leading_bound(s, at);
    let lead = leading_whitespace(s) as int;
    let rest = s.skip(lead);
    assert(rest[end - 1 - lead] == s[end - 1]);
    lemma_trailing_bound(rest, end - 1 - lead);
    assert(trimmed(s).subrange(at - lead, end - lead) =~= s.subrange(at, end));
}

/// The rendering of a part that neither begins nor ends with white space
/// stands in the display text, at its offset and with single quotes only,
/// and in the validation text as it is.
pub proof fn lemma_part_in_texts(rules: SpacingRulesView, parts: Seq<PartView>, i: int)
    requires
        0 <= i < parts.len(),
    ensures
        is_solid(parts[i].display()) ==> holds_at(
            display_string(rules, parts),
            display_start(rules, parts, i),
            quotes_normalized(parts[i].display()),
        ),
        is_solid(parts[i].validation()) ==> holds_at(
            validation_text(rules, parts),
            validation_start(rules, parts, i),
            parts[i].validation(),
        ),
{
    if is_solid(parts[i].display()) {
        let raw = spaced(rules, parts, Projection::Display);
        let piece = parts[i].display();
        let at = display_start(rules, parts, i);
        lemma_raw_occurrence(rules, parts, i, Projection::Display);
        lemma_trim_keeps(raw, raw_start(rules, parts, i, Projection::Display), piece);
        assert(quotes_normalized(trimmed(raw)).subrange(at, at + piece.len())
            =~= quotes_normalized(trimmed(raw).subrange(at, at + piece.len())));
    }
    if is_solid(parts[i].validation()) {
        let raw = spaced(rules, parts, Projection::Validation);
        lemma_raw_occurrence(rules, parts, i, Projection::Validation);
        lemma_trim_keeps(
            raw,
            raw_start(rules, parts, i, Projection::Validation),
            parts[i].validation(),
        );
    }
}

/// What separates a token that ends like `a` from a token that begins like
/// `b`: nothing where the rules forbid a space, else one space.
pub open spec fn separator(rules: SpacingRulesView, a: Seq<char>, b: Seq<char>) -> Seq<char> {
    if rules.no_space_after.contains(a.last()) || rules.no_space_before.contains(b[0]) {
        Seq::empty()
    } else {
        seq![' ']
    }
}

/// A part that shows in the display text shows in the validation text.
pub proof fn lemma_validation_not_empty(part: PartView)
    requires
        part.display().len() > 0,
    ensures
        part.validation().len() > 0,
{
    reveal_strlit("'dummy_value'");
}

/// The untrimmed text of the first `k + 1` parts ends with the display of
/// the part `k`, where that is not empty.
proof fn lemma_last_emitted(rules: SpacingRulesView, parts: Seq<PartView>, k: int)
    requires
        0 <= k < parts.len(),
        parts[k].display().len() > 0,
    ensures
        spaced(rules, parts.take(k + 1), Projection::Display).len() > 0,
        spaced(rules, parts.take(k + 1), Projection::Display).last() == parts[k].display().last(),
{
    lemma_spaced_step(rules, parts, k, Projection::Display);
}

/// Two adjacent parts stand side by side in the untrimmed text of either
/// projection, with the same separator between them. This is stated of
/// parts that are not empty, of which the first does not end with white
/// space.
pub proof fn lemma_raw_adjacent(
    rules: SpacingRulesView,
    parts: Seq<PartView>,
    i: int,
    projection: Projection,
)
    requires
        0 < i < parts.len(),
        parts[i - 1].display().len() > 0,
        parts[i].display().len() > 0,
        !is_whitespace(parts[i - 1].display().last()),
    ensures
        holds_at(
            spaced(rules, parts, projection),
            raw_start(rules, parts, i - 1, projection),
            parts[i - 1].rendering(projection) + separator(
                rules,
                parts[i - 1].display(),
                parts[i].display(),
            ) + parts[i].rendering(projection),
        ),
        raw_start(rules, parts, i, projection) == raw_start(rules, parts, i - 1, projection)
            + parts[i - 1].rendering(projection).len() + separator(
            rules,
            parts[i - 1].display(),
            parts[i].display(),
        ).len(),
{
    let head = spaced(rules, parts.take(i - 1), projection);
    let first_gap = gap(
        rules,
        spaced(rules, parts.take(i - 1), Projection::Display),
        parts[i - 1].display(),
    );
    let middle = spaced(rules, parts.take(i), projection);
    let long = spaced(rules, parts.take(i + 1), projection);
    let all = spaced(rules, parts, projection);
    let sep = separator(rules, parts[i - 1].display(), parts[i].display());
    let piece = parts[i - 1].rendering(projection) + sep + parts[i].rendering(projection);
    assert(middle == head + first_gap + parts[i - 1].rendering(projection)) by {
        lemma_spaced_step(rules, parts, i - 1, projection);
    }
    assert(gap(rules, spaced(rules, parts.take(i), Projection::Display), parts[i].display())
        == sep) by {
        lemma_last_emitted(rules, parts, i - 1);
    }
    assert(long == middle + sep + parts[i].rendering(projection)) by {
        lemma_spaced_step(rules, parts, i, projection);
    }
    assert(long =~= (head + first_gap) + piece);
    lemma_piece_behind(head + first_gap, piece);
    lemma_spaced_prefix(rules, parts, i + 1, projection);
    lemma_holds_in_longer(long, all, (head + first_gap).len() as int, piece);
}

/// The last character of `a`, the separator `sep` and the first character
/// of `b`: what stands where two tokens meet.
pub open spec fn joint(a: Seq<char>, sep: Seq<char>, b: Seq<char>) -> Seq<char> {
    seq![a.last()] + sep + seq![b[0]]
}

/// What stands inside a piece stands in the text that holds the piece.
proof fn lemma_holds_inside(
    text: Seq<char>,
    at: int,
    whole: Seq<char>,
    inside: int,
    piece: Seq<char>,
)
    requires
        holds_at(text, at, whole),
        holds_at(whole, inside, piece),
    ensures
        holds_at(text, at + inside, piece),
{
    assert(text.subrange(at + inside, at + inside + piece.len()) =~= text.subrange(
        at,
        at + whole.len(),
    ).subrange(inside, inside + piece.len()));
}

/// The piece where two texts meet stands in their concatenation.
proof fn lemma_joint_inside(a: Seq<char>, sep: Seq<char>, b: Seq<char>)
    requires
        a.len() > 0,
        b.len() > 0,
    ensures
        holds_at(a + sep + b, a.len() - 1, joint(a, sep, b)),
        joint(a, sep, b).len() == sep.len() + 2,
        joint(a, sep, b)[0] == a.last(),
        joint(a, sep, b).last() == b[0],
        (a + sep + b)[0] == a[0],
        (a + sep + b).last() == b.last(),
{
    let piece = joint(a, sep, b);
    assert((a + sep + b).subrange(a.len() - 1, a.len() - 1 + piece.len()) =~= piece);
}

/// Where two adjacent parts meet, the trimmed text of either projection
/// holds the last character of the first, the separator and the first
/// character of the second, where neither character is white space; and it
/// holds both renderings whole, where the first does not begin and the
/// second does not end with white space.
proof fn lemma_adjacent_kept(
    rules: SpacingRulesView,
    parts: Seq<PartView>,
    i: int,
    projection: Projection,
)
    requires
        0 < i < parts.len(),
        parts[i - 1].display().len() > 0,
        parts[i].display().len() > 0,
        !is_whitespace(parts[i - 1].display().last()),
    ensures
        ({
            let raw = spaced(rules, parts, projection);
            let a = parts[i - 1].rendering(projection);
            let b = parts[i].rendering(projection);
            let sep = separator(rules, parts[i - 1].display(), parts[i].display());
            let start = raw_start(rules, parts, i - 1, projection) - leading_whitespace(raw);
            &&& a.len() > 0
            &&& b.len() > 0
            &&& !is_whitespace(a.last()) && !is_whitespace(b[0]) ==> holds_at(
                trimmed(raw),
                start + a.len() - 1,
                joint(a, sep, b),
            )
            &&& !is_whitespace(a[0]) && !is_whitespace(b.last()) ==> holds_at(
                trimmed(raw),
                start,
                a + sep + b,
            )
        }),
{
    let raw = spaced(rules, parts, projection);
    let a = parts[i - 1].rendering(projection);
    let b = parts[i].rendering(projection);
    let sep = separator(rules, parts[i - 1].display(), parts[i].display());
    let at = raw_start(rules, parts, i - 1, projection);
    let whole = a + sep + b;
    let piece = joint(a, sep, b);
    assert(a.len() > 0 && b.len() > 0) by {
        lemma_validation_not_empty(parts[i - 1]);
        lemma_validation_not_empty(parts[i]);
    }
    assert(holds_at(raw, at, whole)) by {
        lemma_raw_adjacent(rules, parts, i, projection);
    }
    lemma_joint_inside(a, sep, b);
    if !is_whitespace(a.last()) && !is_whitespace(b[0]) {
        assert(holds_at(raw, at + a.len() - 1, piece)) by {
            lemma_holds_inside(raw, at, whole, a.len() - 1, piece);
        }
        assert(is_solid(piece));
        lemma_trim_keeps(raw, at + a.len() - 1, piece);
    }
    if !is_whitespace(a[0]) && !is_whitespace(b.last()) {
        assert(is_solid(whole));
        lemma_trim_keeps(raw, at, whole);
    }
}

/// The spacing invariant. Where two adjacent parts meet, exactly one space
/// stands between them, or nothing where the first ends with a character
/// after which no space is put or the second begins with one before which
/// none is put: the display text holds the last character of the first
/// part, that separator and the first character of the second, and the
/// validation text holds the same separator between its renderings of the
/// two. Both texts hold the two renderings whole, where the first does not
/// begin and the second does not end with white space, which trimming would
/// take. This is stated of parts that are not empty, of which the first
/// does not end with white space.
pub proof fn lemma_spacing_invariant(rules: SpacingRulesView, parts: Seq<PartView>, i: int)
    requires
        0 < i < parts.len(),
        parts[i - 1].display().len() > 0,
        parts[i].display().len() > 0,
        !is_whitespace(parts[i - 1].display().last()),
    ensures
        ({
            let text = display_string(rules, parts);
            let a = parts[i - 1].display();
            let b = parts[i].display();
            let sep = separator(rules, a, b);
            let start = display_start(rules, parts, i - 1);
            &&& display_start(rules, parts, i) == start + a.len() + sep.len()
            &&& !is_whitespace(b[0]) ==> holds_at(
                text,
                start + a.len() - 1,
                quotes_normalized(joint(a, sep, b)),
            )
            &&& !is_whitespace(a[0]) && !is_whitespace(b.last()) ==> holds_at(
                text,
                start,
                quotes_normalized(a) + sep + quotes_normalized(b),
            )
        }),
        ({
            let text = validation_text(rules, parts);
            let a = parts[i - 1].validation();
            let b = parts[i].validation();
            let sep = separator(rules, parts[i - 1].display(), parts[i].display());
            let start = validation_start(rules, parts, i - 1);
            &&& a.len() > 0
            &&& b.len() > 0
            &&& validation_start(rules, parts, i) == start + a.len() + sep.len()
            &&& !is_whitespace(a.last()) && !is_whitespace(b[0]) ==> holds_at(
                text,
                start + a.len() - 1,
                joint(a, sep, b),
            )
            &&& !is_whitespace(a[0]) && !is_whitespace(b.last()) ==> holds_at(
                text,
                start,
                a + sep + b,
            )
        }),
{
    let a = parts[i - 1].display();
    let b = parts[i].display();
    let sep = separator(rules, a, b);
    let raw = spaced(rules, parts, Projection::Display);
    let start = display_start(rules, parts, i - 1);
    lemma_raw_adjacent(rules, parts, i, Projection::Display);
    lemma_raw_adjacent(rules, parts, i, Projection::Validation);
    lemma_adjacent_kept(rules, parts, i, Projection::Display);
    lemma_adjacent_kept(rules, parts, i, Projection::Validation);
    if !is_whitespace(b[0]) {
        let piece = joint(a, sep, b);
        let at = start + a.len() - 1;
        assert(quotes_normalized(trimmed(raw)).subrange(at, at + piece.len())
            =~= quotes_normalized(trimmed(raw).subrange(at, at + piece.len())));
    }
    if !is_whitespace(a[0]) && !is_whitespace(b.last()) {
        let n = (a + sep + b).len() as int;
        assert(quotes_normalized(trimmed(raw)).subrange(start, start + n) =~= quotes_normalized(
            trimmed(raw).subrange(start, start + n),
        ));
        assert(quotes_normalized(a + sep + b) =~= quotes_normalized(a) + sep + quotes_normalized(
            b,
        ));
    }
}

/// The leading white space of `s` ends before a character that is not
/// white space, or at the end of `s`.
proof fn lemma_leading_stop(s: Seq<char>)
    ensures
        leading_whitespace(s) <= s.len(),
        leading_whitespace(s) < s.len() ==> !is_whitespace(s[leading_whitespace(s) as int]),
    decreases s.len(),
{
    if s.len() > 0 && is_whitespace(s[0]) {
        lemma_leading_stop(s.drop_first());
    }
}

/// The trailing white space of `s` begins behind a character that is not
/// white space, or at the start of `s`.
proof fn lemma_trailing_stop(s: Seq<char>)
    ensures
        trailing_whitespace(s) <= s.len(),
        trailing_whitespace(s) < s.len() ==> !is_whitespace(
            s[s.len() - trailing_whitespace(s) - 1],
        ),
    decreases s.len(),
{
    if s.len() > 0 && is_whitespace(s.last()) {
        lemma_trailing_stop(s.drop_last());
    }
}

/// A trimmed text neither begins nor ends with white space.
pub proof fn lemma_trimmed_ends(s: Seq<char>)
    ensures
        trimmed(s).len() > 0 ==> !is_whitespace(trimmed(s)[0]) && !is_whitespace(
            trimmed(s).last(),
        ),
{
    let lead = leading_whitespace(s) as int;
    let rest = s.skip(lead);
    lemma_leading_stop(s);
    lemma_trailing_stop(rest);
    if trimmed(s).len() > 0 {
        assert(trimmed(s)[0] == rest[0]);
        assert(rest[0] == s[lead]);
        assert(trimmed(s).last() == rest[rest.len() - trailing_whitespace(rest) - 1]);
    }
}

/// The display text of every template, and its validation text before the
/// pass on bind markers, neither begin nor end with white space.
pub proof fn lemma_texts_trimmed(rules: SpacingRulesView, parts: Seq<PartView>)
    ensures
        display_string(rules, parts).len() > 0 ==> !is_whitespace(display_string(rules, parts)[0])
            && !is_whitespace(display_string(rules, parts).last()),
        validation_text(rules, parts).len() > 0 ==> !is_whitespace(
            validation_text(rules, parts)[0],
        ) && !is_whitespace(validation_text(rules, parts).last()),
{
    lemma_trimmed_ends(spaced(rules, parts, Projection::Display));
    lemma_trimmed_ends(spaced(rules, parts, Projection::Validation));
}

/// Quote normalisation. A string literal stands in the display text and in
/// the validation text between single quotes: in the validation text with
/// its own text, in the display text with every double quote of its text
/// turned into a single one.
pub proof fn lemma_quote_normalization(rules: SpacingRulesView, parts: Seq<PartView>, i: int)
    requires
        0 <= i < parts.len(),
        parts[i] is StringLiteral,
    ensures
        holds_at(
            display_string(rules, parts),
            display_start(rules, parts, i),
            quoted('\'', quotes_normalized(parts[i]->StringLiteral_0)),
        ),
        holds_at(
            validation_text(rules, parts),
            validation_start(rules, parts, i),
            quoted('\'', parts[i]->StringLiteral_0),
        ),
{
    let text = parts[i]->StringLiteral_0;
    lemma_part_in_texts(rules, parts, i);
    assert(quotes_normalized(quoted('"', text)) =~= quoted('\'', quotes_normalized(text)));
}

/// Placeholder passthrough. A bind marker stands in the display text as it
/// is, whatever surrounds it. This is stated of a marker that is not empty,
/// neither begins nor ends with white space and holds no double quote.
pub proof fn lemma_placeholder_passthrough(rules: SpacingRulesView, parts: Seq<PartView>, i: int)
    requires
        0 <= i < parts.len(),
        parts[i] is Placeholder,
        is_solid(parts[i]->Placeholder_0),
        !parts[i]->Placeholder_0.contains('"'),
    ensures
        holds_at(
            display_string(rules, parts),
            display_start(rules, parts, i),
            parts[i]->Placeholder_0,
        ),
{
    let marker = parts[i]->Placeholder_0;
    lemma_part_in_texts(rules, parts, i);
    assert forall|j: int| 0 <= j < marker.len() implies marker[j] != '"' by {
        assert(marker.contains(marker[j]));
    }
    assert(quotes_normalized(marker) =~= marker);
}

/// Whether a slot, an opening brace and directly a closing one, stands in
/// `text` at the offset `at`.
pub open spec fn is_slot_at(text: Seq<char>, at: int) -> bool {
    &&& 0 <= at
    &&& at + 1 < text.len()
    &&& text[at] == '{'
    &&& text[at + 1] == '}'
}

/// The number of slots in `text`.
pub open spec fn slots_in(text: Seq<char>) -> nat
    decreases text.len(),
{
    if text.len() < 2 {
        0
    } else if is_slot_at(text, text.len() - 2) {
        slots_in(text.drop_last()) + 1
    } else {
        slots_in(text.drop_last())
    }
}

/// Whether no part of `parts` but an interpolation shows a slot, or ends
/// with an opening brace that the next part could close.
pub open spec fn only_interpolations_hold_slots(parts: Seq<PartView>) -> bool {
    forall|j: int|
        0 <= j < parts.len() && !(#[trigger] parts[j] is Interpolation) ==> slots_in(
            parts[j].display(),
        ) == 0 && last_of(parts[j].display()) != Some('{')
}

/// The slots of two texts in a row are those of each, and one more where
/// the first ends with an opening brace and the second begins with a
/// closing one.
proof fn lemma_slots_concat(x: Seq<char>, y: Seq<char>)
    ensures
        slots_in(x + y) == slots_in(x) + slots_in(y) + if x.len() > 0 && y.len() > 0 && x.last()
            == '{' && y[0] == '}' {
            1nat
        } else {
            0nat
        },
    decreases y.len(),
{
    if y.len() == 0 {
        assert(x + y =~= x);
    } else if y.len() == 1 {
        assert((x + y).drop_last() =~= x);
    } else {
        assert((x + y).drop_last() =~= x + y.drop_last());
        lemma_slots_concat(x, y.drop_last());
    }
}

/// A text without an opening brace holds no slot.
proof fn lemma_no_brace_no_slot(text: Seq<char>)
    requires
        forall|j: int| 0 <= j < text.len() ==> text[j] != '{',
    ensures
        slots_in(text) == 0,
    decreases text.len(),
{
    if text.len() >= 2 {
        lemma_no_brace_no_slot(text.drop_last());
    }
}

/// Quote normalisation keeps the slots.
proof fn lemma_slots_normalized(text: Seq<char>)
    ensures
        slots_in(quotes_normalized(text)) == slots_in(text),
    decreases text.len(),
{
    if text.len() >= 2 {
        assert(quotes_normalized(text).drop_last() =~= quotes_normalized(text.drop_last()));
        lemma_slots_normalized(text.drop_last());
    }
}

/// The trailing white space of `s` holds white space only.
proof fn lemma_trailing_run(s: Seq<char>, a: int)
    requires
        0 <= a,
        s.len() - trailing_whitespace(s) <= a < s.len(),
    ensures
        is_whitespace(s[a]),
    decreases s.len(),
{
    if a < s.len() - 1 {
        lemma_trailing_run(s.drop_last(), a);
    }
}

/// Trimming and quote normalisation keep the slots of a text.
proof fn lemma_slots_kept(raw: Seq<char>)
    ensures
        slots_in(quotes_normalized(trimmed(raw))) == slots_in(raw),
{
    let lead = leading_whitespace(raw) as int;
    let rest = raw.skip(lead);
    let tail = trailing_whitespace(rest) as int;
    let core = trimmed(raw);
    if raw.len() > 0 {
        lemma_leading_bound(raw, 0);
    }
    if rest.len() > 0 {
        lemma_trailing_bound(rest, 0);
    }
    let before = raw.take(lead);
    let after = rest.skip(rest.len() - tail);
    assert forall|j: int| 0 <= j < before.len() implies before[j] != '{' && before[j] != '}' by {
        lemma_leading_bound(raw, j);
    }
    assert forall|j: int| 0 <= j < after.len() implies after[j] != '{' && after[j] != '}' by {
        lemma_trailing_run(rest, rest.len() - tail + j);
    }
    lemma_no_brace_no_slot(before);
    lemma_no_brace_no_slot(after);
    lemma_slots_concat(before, core);
    lemma_slots_concat(before + core, after);
    assert(raw =~= before + core + after);
    lemma_slots_normalized(core);
}

/// Trimming and quote normalisation keep the slots that stand before a
/// character that is not white space.
proof fn lemma_slots_before(raw: Seq<char>, start: int)
    requires
        0 <= start < raw.len(),
        !is_whitespace(raw[start]),
    ensures
        leading_whitespace(raw) <= start,
        slots_in(quotes_normalized(trimmed(raw)).take(start - leading_whitespace(raw)))
            == slots_in(raw.take(start)),
{
    let lead = leading_whitespace(raw) as int;
    let rest = raw.skip(lead);
    let core = trimmed(raw);
    lemma_leading_bound(raw, start);
    assert(rest[start - lead] == raw[start]);
    lemma_trailing_bound(rest, start - lead);
    let before = raw.take(lead);
    assert forall|j: int| 0 <= j < before.len() implies before[j] != '{' by {
        lemma_leading_bound(raw, j);
    }
    lemma_no_brace_no_slot(before);
    let kept = core.take(start - lead);
    lemma_slots_concat(before, kept);
    assert(raw.take(start) =~= before + kept);
    assert(quotes_normalized(core).take(start - lead) =~= quotes_normalized(kept));
    lemma_slots_normalized(kept);
}

/// The expressions of the first `k` parts are the first expressions of all.
proof fn lemma_interpolations_prefix(parts: Seq<PartView>, k: int)
    requires
        0 <= k <= parts.len(),
    ensures
        interpolations(parts.take(k)).is_prefix_of(interpolations(parts)),
    decreases parts.len() - k,
{
    if k == parts.len() {
        assert(parts.take(k) =~= parts);
    } else {
        assert(parts.take(k + 1).drop_last() =~= parts.take(k));
        lemma_interpolations_prefix(parts, k + 1);
        let short = interpolations(parts.take(k));
        let long = interpolations(parts.take(k + 1));
        let all = interpolations(parts);
        assert(short =~= long.subrange(0, short.len() as int));
        assert(short =~= all.subrange(0, short.len() as int));
    }
}

/// Where only interpolations hold slots, the untrimmed display text of the
/// first `k` parts holds one slot for each of their interpolations, and
/// does not end with an opening brace.
proof fn lemma_raw_slots(rules: SpacingRulesView, parts: Seq<PartView>, k: int)
    requires
        0 <= k <= parts.len(),
        only_interpolations_hold_slots(parts),
    ensures
        slots_in(spaced(rules, parts.take(k), Projection::Display)) == interpolations(
            parts.take(k),
        ).len(),
        last_of(spaced(rules, parts.take(k), Projection::Display)) != Some('{'),
    decreases k,
{
    if k > 0 {
        lemma_raw_slots(rules, parts, k - 1);
        lemma_spaced_step(rules, parts, k - 1, Projection::Display);
        assert(parts.take(k).drop_last() =~= parts.take(k - 1));
        let head = spaced(rules, parts.take(k - 1), Projection::Display);
        let shown = parts[k - 1].display();
        let space = gap(rules, head, shown);
        lemma_no_brace_no_slot(space);
        lemma_slots_concat(head, space);
        lemma_slots_concat(head + space, shown);
        if parts[k - 1] is Interpolation {
            reveal_with_fuel(slots_in, 2);
            assert(slots_in(slot()) == 1);
        }
    }
}

/// Where no part but an interpolation shows a slot or ends with an opening
/// brace, the display text of a template holds as many slots as the
/// template holds interpolations; none, where it holds none.
pub proof fn lemma_slot_count(rules: SpacingRulesView, parts: Seq<PartView>)
    requires
        only_interpolations_hold_slots(parts),
    ensures
        slots_in(display_string(rules, parts)) == interpolations(parts).len(),
{
    lemma_raw_slots(rules, parts, parts.len() as int);
    assert(parts.take(parts.len() as int) =~= parts);
    lemma_slots_kept(spaced(rules, parts, Projection::Display));
}

/// Interpolation ordering. The interpolation that is the part `i` holds the
/// expression number `n`, where `n` interpolations stand before it, and its
/// slot stands in the display text at its offset. Where no other part shows
/// a slot or ends with an opening brace, it is the slot number `n` of the
/// display text, and that text holds as many slots as there are
/// expressions: the slots take the expressions in their order. The artifact
/// of such a template, where it compiles, is the formatter with that text
/// and those expressions.
pub proof fn lemma_interpolation_order(rules: SpacingRulesView, parts: Seq<PartView>, i: int)
    requires
        0 <= i < parts.len(),
        parts[i] is Interpolation,
    ensures
        interpolations(parts.take(i)).len() < interpolations(parts).len(),
        interpolations(parts)[interpolations(parts.take(i)).len() as int]
            == parts[i]->Interpolation_0,
        is_slot_at(display_string(rules, parts), display_start(rules, parts, i)),
        only_interpolations_hold_slots(parts) ==> slots_in(
            display_string(rules, parts).take(display_start(rules, parts, i)),
        ) == interpolations(parts.take(i)).len(),
        only_interpolations_hold_slots(parts) ==> slots_in(display_string(rules, parts))
            == interpolations(parts).len(),
        compiled(rules, parts) is Ok ==> compiled(rules, parts) == Ok::<
            ArtifactView,
            CompileErrorView,
        >(
            ArtifactView::Formatter {
                template: display_string(rules, parts),
                arguments: interpolations(parts),
            },
        ),
{
    let n = interpolations(parts.take(i)).len() as int;
    let raw = spaced(rules, parts, Projection::Display);
    let text = display_string(rules, parts);
    let at = display_start(rules, parts, i);
    assert(parts.take(i + 1).drop_last() =~= parts.take(i));
    lemma_interpolations_prefix(parts, i + 1);
    assert(interpolations(parts.take(i + 1))[n] == parts[i]->Interpolation_0);
    lemma_part_in_texts(rules, parts, i);
    assert(quotes_normalized(slot()) =~= slot());
    assert(text[at] == text.subrange(at, at + 2)[0]);
    assert(text[at + 1] == text.subrange(at, at + 2)[1]);
    if only_interpolations_hold_slots(parts) {
        let start = raw_start(rules, parts, i, Projection::Display);
        let head = spaced(rules, parts.take(i), Projection::Display);
        let space = gap(rules, head, parts[i].display());
        lemma_raw_occurrence(rules, parts, i, Projection::Display);
        assert(raw[start] == raw.subrange(start, start + 2)[0]);
        lemma_spaced_step(rules, parts, i, Projection::Display);
        lemma_spaced_prefix(rules, parts, i + 1, Projection::Display);
        lemma_raw_slots(rules, parts, i);
        lemma_no_brace_no_slot(space);
        lemma_slots_concat(head, space);
        assert(raw.take(start) =~= head + space);
        lemma_slots_before(raw, start);
        lemma_slot_count(rules, parts);
    }
}

/// Determinism of the texts. Whatever the spacing engine makes of one
/// template under one set of rules, on any two runs, holds the same display
/// text, the same validation text and the same expressions.
pub proof fn lemma_texts_determined(
    rules: SpacingRulesView,
    parts: Seq<PartView>,
    first: Projections,
    second: Projections,
)
    requires
        is_reconstruction(first, rules, parts),
        is_reconstruction(second, rules, parts),
    ensures
        first.display@ == second.display@,
        first.validation@ == second.validation@,
        strings_view(first.interpolations@) == strings_view(second.interpolations@),
{
}

/// Determinism of the classifier. Any two runs on the same tokens give the
/// same parts in the same order, or the same error: the same position and
/// the same reason.
pub proof fn lemma_classification_determined(
    tokens: Seq<RawTokenView>,
    first: Result<SqlInput, CompileError>,
    second: Result<SqlInput, CompileError>,
)
    requires
        is_classification(first, classified(tokens)),
        is_classification(second, classified(tokens)),
    ensures
        first is Ok <==> second is Ok,
        first is Ok ==> first->Ok_0@ == second->Ok_0@,
        first is Err ==> first->Err_0@ == second->Err_0@,
{
}

/// Determinism of the outcome. Any two runs on one template under one set
/// of rules both fail or both succeed; where they fail, the errors are the
/// same, and where they succeed, the artifacts are of one kind, with the
/// same text and the same expressions.
pub proof fn lemma_outcome_determined(
    rules: SpacingRulesView,
    tokens: Seq<RawTokenView>,
    first: Result<Artifact, CompileError>,
    second: Result<Artifact, CompileError>,
)
    requires
        is_outcome(first, compiled_tokens(rules, tokens)),
        is_outcome(second, compiled_tokens(rules, tokens)),
    ensures
        first is Ok <==> second is Ok,
        first is Ok ==> first->Ok_0@ == second->Ok_0@,
        first is Err ==> first->Err_0@ == second->Err_0@,
{
}

/// A template whose validation text the grammar refuses compiles to no
/// artifact but to the failed validation, whose message holds the grammar's
/// error and the text that was checked.
pub proof fn lemma_refused_template(rules: SpacingRulesView, parts: Seq<PartView>)
    requires
        !grammar_accepts(validation_string(rules, parts)),
    ensures
        compiled(rules, parts) == Err::<ArtifactView, CompileErrorView>(
            CompileErrorView::GrammarValidationFailed {
                reason: grammar_error(validation_string(rules, parts))->Some_0,
                checked: validation_string(rules, parts),
            },
        ),
        compiled(rules, parts)->Err_0.message() == diagnostic_prefix() + grammar_error(
            validation_string(rules, parts),
        )->Some_0 + diagnostic_separator() + validation_string(rules, parts),
{
}

} // verus!
