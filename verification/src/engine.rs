use vstd::prelude::*;

use crate::errors::RenderError;
use crate::guard::{record_accepted, spec_record_accepted};
use crate::labels::LabelScheme;
use crate::ordering::Ordering;
use crate::pipeline::{render_moves, spec_moves_in_range, spec_render};

verus! {

/// Whether the rules engine parses the record. Its parser, board size and
/// move enumeration are functions of the record text alone, so their results
/// can be named.
pub uninterp spec fn sgf_parses(s: Seq<char>) -> bool;

/// The parser's diagnostic for a record it rejects.
pub uninterp spec fn sgf_parse_message(s: Seq<char>) -> Seq<char>;

/// The board dimensions the engine reports for a parsed record.
pub uninterp spec fn sgf_board(s: Seq<char>) -> (usize, usize);

/// The legal moves the engine enumerates for a parsed record, in its own
/// stable order.
pub uninterp spec fn sgf_moves(s: Seq<char>) -> Seq<(usize, usize)>;

/// Relies on goban's Game::from_sgf, Game::size and Game::legals: parses the
/// record or reports the parser's message, and on success hands back the
/// board's dimensions and the legal next moves as zero-based coordinates, in
/// the engine's enumeration order, kept verbatim. The calls panic on records
/// outside the engine's limits, so only pre-checked records are admitted.
#[verifier::external_body]
fn parse_and_enumerate(sgf: &str) -> (r: Result<(usize, usize, Vec<(usize, usize)>), String>)
    requires
        spec_record_accepted(sgf@),
    ensures
        r is Ok <==> sgf_parses(sgf@),
        r matches Ok(t) ==> (t.0, t.1) == sgf_board(sgf@) && t.2@ == sgf_moves(sgf@),
        r matches Err(m) ==> m@ == sgf_parse_message(sgf@),
{
    let game = match goban::rules::game::Game::from_sgf(sgf) {
        Ok(game) => game,
        Err(message) => return Err(message),
    };
    let (width, height) = game.size();
    let moves = game.legals().map(|(x, y)| (x as usize, y as usize)).collect();
    Ok((width as usize, height as usize, moves))
}

/// The diagnostic for a record the pre-check keeps away from the engine.
fn unsupported_record_message() -> (r: String)
    ensures
        r@ == "unsupported or malformed game record"@,
{
    "unsupported or malformed game record".to_owned()
}

/// Parses a game record, asks the rules engine for the board and its legal
/// moves, and renders the one output line for them.
///
/// A record outside the engine's limits is rejected up front with a parse
/// error, a rejected record's parser message is surfaced verbatim, and a
/// returned line is exactly the rendering of the engine's board and move
/// enumeration for this record.
pub fn legal_moves_line(sgf: &str, scheme: &LabelScheme, ordering: Ordering) -> (r: Result<
    String,
    RenderError,
>)
    ensures
        r is Ok <==> {
            &&& spec_record_accepted(sgf@)
            &&& sgf_parses(sgf@)
            &&& scheme.spec_valid_for(sgf_board(sgf@).0 as int, sgf_board(sgf@).1 as int)
            &&& spec_moves_in_range(
                sgf_moves(sgf@),
                sgf_board(sgf@).0 as int,
                sgf_board(sgf@).1 as int,
            )
        },
        r matches Ok(line) ==> line@ == spec_render(*scheme, ordering, sgf_moves(sgf@)),
        !spec_record_accepted(sgf@) ==> (r matches Err(RenderError::Parse(m)) && m@
            == "unsupported or malformed game record"@),
        spec_record_accepted(sgf@) && !sgf_parses(sgf@) ==> (r matches Err(RenderError::Parse(m))
            && m@ == sgf_parse_message(sgf@)),
        spec_record_accepted(sgf@) && sgf_parses(sgf@) && !scheme.spec_valid_for(
            sgf_board(sgf@).0 as int,
            sgf_board(sgf@).1 as int,
        ) ==> r == Err::<String, RenderError>(
            RenderError::Validation(
                scheme.spec_validation_error(sgf_board(sgf@).0, sgf_board(sgf@).1),
            ),
        ),
        spec_record_accepted(sgf@) && sgf_parses(sgf@) && scheme.spec_valid_for(
            sgf_board(sgf@).0 as int,
            sgf_board(sgf@).1 as int,
        ) && !spec_moves_in_range(
            sgf_moves(sgf@),
            sgf_board(sgf@).0 as int,
            sgf_board(sgf@).1 as int,
        ) ==> (r matches Err(RenderError::InternalInvariant { x, y }) && exists|i: int|
            {
                &&& 0 <= i < sgf_moves(sgf@).len()
                &&& sgf_moves(sgf@)[i] == (x, y)
                &&& !(x < sgf_board(sgf@).0 && y < sgf_board(sgf@).1)
                &&& forall|j: int|
                    0 <= j < i ==> (#[trigger] sgf_moves(sgf@)[j]).0 < sgf_board(sgf@).0
                        && sgf_moves(sgf@)[j].1 < sgf_board(sgf@).1
            }),
{
    if !record_accepted(sgf) {
        return Err(RenderError::Parse(unsupported_record_message()));
    }
    match parse_and_enumerate(sgf) {
        Err(message) => Err(RenderError::Parse(message)),
        Ok((width, height, moves)) => {
            let r = render_moves(scheme, ordering, width, height, &moves);
            proof {
                assert(moves@ == sgf_moves(sgf@));
                assert((width, height) == sgf_board(sgf@));
            }
            r
        },
    }
}

} // verus!
