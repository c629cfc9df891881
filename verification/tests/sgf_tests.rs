use legal_moves::engine::legal_moves_line;
use legal_moves::errors::{Axis, RenderError, ValidationError};
use legal_moves::labels::LabelScheme;
use legal_moves::ordering::Ordering;

fn custom(xs: &[&str], ys: &[&str]) -> LabelScheme {
    LabelScheme::Custom {
        x_labels: xs.iter().map(|s| s.to_string()).collect(),
        y_labels: ys.iter().map(|s| s.to_string()).collect(),
    }
}

#[test]
fn empty_two_by_two_board_lists_every_point() {
    let scheme = custom(&["a", "b"], &["1", "2"]);
    let line = legal_moves_line("(;GM[1]SZ[2])", &scheme, Ordering::XY).unwrap();
    assert_eq!(line, "(a1|a2|b1|b2)");
}

#[test]
fn yx_ordering_swaps_every_token() {
    let scheme = custom(&["a", "b"], &["1", "2"]);
    let line = legal_moves_line("(;GM[1]SZ[2])", &scheme, Ordering::YX).unwrap();
    assert_eq!(line, "(1a|2a|1b|2b)");
}

#[test]
fn fixed_alphabet_matches_custom_defaults() {
    let line = legal_moves_line("(;GM[1]SZ[2])", &LabelScheme::Fixed, Ordering::XY).unwrap();
    assert_eq!(line, "(a1|a2|b1|b2)");
}

#[test]
fn board_with_no_legal_move_renders_empty_parens() {
    // On a lone intersection any stone is a suicide, so nothing is legal.
    let line = legal_moves_line("(;GM[1]SZ[1])", &LabelScheme::Fixed, Ordering::XY).unwrap();
    assert_eq!(line, "()");
}

#[test]
fn unparseable_record_reports_the_parser_message() {
    let r = legal_moves_line("this is no game record", &LabelScheme::Fixed, Ordering::XY);
    assert!(matches!(r, Err(RenderError::Parse(_))));
}

#[test]
fn labels_too_short_for_parsed_board() {
    let scheme = custom(&["a"], &["1", "2"]);
    let r = legal_moves_line("(;GM[1]SZ[2])", &scheme, Ordering::XY);
    assert_eq!(
        r,
        Err(RenderError::Validation(ValidationError::InsufficientLabels {
            axis: Axis::X,
            required: 2,
            supplied: 1,
        }))
    );
}

#[test]
fn two_runs_on_identical_text_agree() {
    let sgf = "(;GM[1]SZ[3];B[aa];W[bb])";
    let scheme = custom(&["a", "b", "c"], &["1", "2", "3"]);
    let first = legal_moves_line(sgf, &scheme, Ordering::XY).unwrap();
    let second = legal_moves_line(sgf, &scheme, Ordering::XY).unwrap();
    assert_eq!(first, second);
}
