use vstd::prelude::*;
use vstd::string::StringExecFns;

use crate::errors::RenderError;
use crate::formatter::{format_tokens, spec_format};
use crate::labels::LabelScheme;
use crate::ordering::{spec_reorder, Ordering};

verus! {

/// Whether every coordinate lies on a `width` by `height` board.
pub open spec fn spec_moves_in_range(moves: Seq<(usize, usize)>, width: int, height: int) -> bool {
    forall|i: int|
        0 <= i < moves.len() ==> (#[trigger] moves[i]).0 < width && moves[i].1 < height
}

/// The token one move renders to: its two labels in the selected order,
/// concatenated without a separator.
pub open spec fn spec_token(scheme: LabelScheme, ordering: Ordering, m: (usize, usize)) -> Seq<
    char,
> {
    let pair = spec_reorder(
        ordering,
        scheme.spec_x_label(m.0 as int),
        scheme.spec_y_label(m.1 as int),
    );
    pair.0 + pair.1
}

/// The full output line for a move sequence: one token per move, in the
/// sequence's own order, joined by `'|'` and wrapped in parentheses.
pub open spec fn spec_render(
    scheme: LabelScheme,
    ordering: Ordering,
    moves: Seq<(usize, usize)>,
) -> Seq<char> {
    spec_format(moves.map_values(|m: (usize, usize)| spec_token(scheme, ordering, m)))
}

/// Renders the legal-move line for a board the rules engine reported as
/// `width` by `height` and the moves it enumerated, in their order.
///
/// Validation runs first and its diagnostic is returned unchanged. After it
/// succeeds an out-of-range coordinate can only be a collaborator defect; the
/// first one found is reported as such, and nothing is printed for a prefix.
pub fn render_moves(
    scheme: &LabelScheme,
    ordering: Ordering,
    width: usize,
    height: usize,
    moves: &Vec<(usize, usize)>,
) -> (r: Result<String, RenderError>)
    ensures
        r is Ok <==> {
            &&& scheme.spec_valid_for(width as int, height as int)
            &&& spec_moves_in_range(moves@, width as int, height as int)
        },
        r matches Ok(line) ==> line@ == spec_render(*scheme, ordering, moves@),
        !scheme.spec_valid_for(width as int, height as int) ==> r == Err::<String, RenderError>(
            RenderError::Validation(scheme.spec_validation_error(width, height)),
        ),
        scheme.spec_valid_for(width as int, height as int) && !spec_moves_in_range(
            moves@,
            width as int,
            height as int,
        ) ==> (r matches Err(RenderError::InternalInvariant { x, y }) && exists|i: int|
            {
                &&& 0 <= i < moves@.len()
                &&& moves@[i] == (x, y)
                &&& !(x < width && y < height)
                &&& forall|j: int|
                    0 <= j < i ==> (#[trigger] moves@[j]).0 < width && moves@[j].1 < height
            }),
{
    if let Err(e) = scheme.validate(width, height) {
        return Err(RenderError::Validation(e));
    }
    let ghost token_of = |m: (usize, usize)| spec_token(*scheme, ordering, m);
    let mut tokens: Vec<String> = Vec::new();
    let mut i: usize = 0;
    while i < moves.len()
        invariant
            0 <= i <= moves@.len(),
            scheme.spec_valid_for(width as int, height as int),
            forall|j: int| 0 <= j < i ==> (#[trigger] moves@[j]).0 < width && moves@[j].1 < height,
            tokens@.map_values(|t: String| t@) == moves@.take(i as int).map_values(token_of),
            token_of == (|m: (usize, usize)| spec_token(*scheme, ordering, m)),
        decreases moves@.len() - i,
    {
        let (x, y) = moves[i];
        if !(x < width && y < height) {
            return Err(RenderError::InternalInvariant { x, y });
        }
        proof {
            crate::labels::lemma_validated_mapping_in_range(
                *scheme,
                width as int,
                height as int,
                x as int,
                y as int,
            );
        }
        let x_label = scheme.x_label(x);
        let y_label = scheme.y_label(y);
        let (first, second) = ordering.reorder(x_label, y_label);
        let token = first.concat(second.as_str());
        let ghost prev_tokens = tokens@;
        tokens.push(token);
        proof {
            assert(token@ == token_of(moves@[i as int]));
            prev_tokens.lemma_push_map_commute(|t: String| t@, token);
            moves@.lemma_map_take_succ(token_of, i as int);
            assert(tokens@.map_values(|t: String| t@) =~= moves@.take((i + 1) as int).map_values(
                token_of,
            ));
        }
        i += 1;
    }
    proof {
        assert(moves@.take(moves@.len() as int) =~= moves@);
    }
    Ok(format_tokens(&tokens))
}

/// A two-move enumeration renders with the first move's token before the
/// second's, never the reverse: the engine's order is kept.
pub proof fn lemma_two_moves_keep_order(
    scheme: LabelScheme,
    ordering: Ordering,
    m1: (usize, usize),
    m2: (usize, usize),
)
    ensures
        spec_render(scheme, ordering, seq![m1, m2]) == seq!['('] + spec_token(scheme, ordering, m1)
            + seq!['|'] + spec_token(scheme, ordering, m2) + seq![')'],
{
    let token_of = |m: (usize, usize)| spec_token(scheme, ordering, m);
    assert(seq![m1, m2].map_values(token_of) =~= seq![token_of(m1), token_of(m2)]);
    crate::formatter::lemma_format_two_tokens(token_of(m1), token_of(m2));
}

/// Two renderings of equal inputs are the same line, character for character:
/// the output is a function of the scheme, the ordering, the board, and the
/// move sequence alone.
pub proof fn lemma_render_deterministic(
    scheme1: LabelScheme,
    ordering1: Ordering,
    moves1: Seq<(usize, usize)>,
    scheme2: LabelScheme,
    ordering2: Ordering,
    moves2: Seq<(usize, usize)>,
)
    requires
        scheme1 == scheme2,
        ordering1 == ordering2,
        moves1 == moves2,
    ensures
        spec_render(scheme1, ordering1, moves1) == spec_render(scheme2, ordering2, moves2),
{
}

} // verus!
