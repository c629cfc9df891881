use legal_moves::errors::{Axis, RenderError, ValidationError};
use legal_moves::labels::LabelScheme;
use legal_moves::ordering::Ordering;
use legal_moves::pipeline::render_moves;

fn custom(xs: &[&str], ys: &[&str]) -> LabelScheme {
    LabelScheme::Custom {
        x_labels: xs.iter().map(|s| s.to_string()).collect(),
        y_labels: ys.iter().map(|s| s.to_string()).collect(),
    }
}

#[test]
fn validation_succeeds_with_sufficient_labels() {
    let scheme = custom(&["a", "b", "c"], &["1", "2"]);
    assert_eq!(scheme.validate(3, 2), Ok(()));
    // Longer label lists than the board needs are fine too.
    assert_eq!(scheme.validate(2, 1), Ok(()));
    assert_eq!(scheme.validate(0, 0), Ok(()));
}

#[test]
fn validation_reports_x_shortfall() {
    let scheme = custom(&["a", "b", "c"], &["1", "2"]);
    assert_eq!(
        scheme.validate(4, 2),
        Err(ValidationError::InsufficientLabels { axis: Axis::X, required: 4, supplied: 3 })
    );
}

#[test]
fn validation_reports_y_shortfall() {
    let scheme = custom(&["a", "b", "c"], &["1", "2"]);
    assert_eq!(
        scheme.validate(3, 5),
        Err(ValidationError::InsufficientLabels { axis: Axis::Y, required: 5, supplied: 2 })
    );
}

#[test]
fn validation_reports_x_shortfall_before_y() {
    let scheme = custom(&["a"], &["1"]);
    assert_eq!(
        scheme.validate(2, 3),
        Err(ValidationError::InsufficientLabels { axis: Axis::X, required: 2, supplied: 1 })
    );
}

#[test]
fn fixed_scheme_rejects_board_wider_than_nineteen() {
    assert_eq!(
        LabelScheme::Fixed.validate(20, 19),
        Err(ValidationError::BoardTooLarge { axis: Axis::X, size: 20, max: 19 })
    );
    assert_eq!(
        LabelScheme::Fixed.validate(19, 21),
        Err(ValidationError::BoardTooLarge { axis: Axis::Y, size: 21, max: 19 })
    );
    assert_eq!(LabelScheme::Fixed.validate(19, 19), Ok(()));
}

#[test]
fn ordering_example_xy_and_yx() {
    let scheme = custom(&["a", "b", "c"], &["1", "2"]);
    let moves = vec![(2usize, 0usize)];
    let xy = render_moves(&scheme, Ordering::XY, 3, 2, &moves).unwrap();
    assert_eq!(xy, "(c1)");
    let yx = render_moves(&scheme, Ordering::YX, 3, 2, &moves).unwrap();
    assert_eq!(yx, "(1c)");
}

#[test]
fn fixed_alphabet_corners() {
    let low = render_moves(&LabelScheme::Fixed, Ordering::XY, 19, 19, &vec![(0, 0)]).unwrap();
    assert_eq!(low, "(a1)");
    let high = render_moves(&LabelScheme::Fixed, Ordering::XY, 19, 19, &vec![(18, 18)]).unwrap();
    assert_eq!(high, "(s19)");
}

#[test]
fn fixed_labels_directly() {
    assert_eq!(LabelScheme::Fixed.x_label(0), "a");
    assert_eq!(LabelScheme::Fixed.x_label(18), "s");
    assert_eq!(LabelScheme::Fixed.y_label(0), "1");
    assert_eq!(LabelScheme::Fixed.y_label(9), "10");
    assert_eq!(LabelScheme::Fixed.y_label(18), "19");
}

#[test]
fn zero_moves_format_to_empty_parens() {
    let scheme = custom(&["a", "b"], &["1", "2"]);
    let line = render_moves(&scheme, Ordering::XY, 2, 2, &vec![]).unwrap();
    assert_eq!(line, "()");
}

#[test]
fn enumeration_order_is_preserved() {
    let line =
        render_moves(&LabelScheme::Fixed, Ordering::XY, 19, 19, &vec![(0, 0), (1, 0)]).unwrap();
    assert_eq!(line, "(a1|b1)");
}

#[test]
fn byte_identical_input_gives_byte_identical_output() {
    let moves = vec![(0usize, 1usize), (2, 2), (1, 0)];
    let a = render_moves(&LabelScheme::Fixed, Ordering::YX, 9, 9, &moves).unwrap();
    let b = render_moves(&LabelScheme::Fixed, Ordering::YX, 9, 9, &moves).unwrap();
    assert_eq!(a, b);
}

#[test]
fn render_rejects_board_the_labels_cannot_cover() {
    let scheme = custom(&["a"], &["1", "2"]);
    let r = render_moves(&scheme, Ordering::XY, 2, 2, &vec![(0, 0)]);
    assert_eq!(
        r,
        Err(RenderError::Validation(ValidationError::InsufficientLabels {
            axis: Axis::X,
            required: 2,
            supplied: 1,
        }))
    );
}

#[test]
fn out_of_range_move_is_an_internal_invariant_error() {
    let r = render_moves(&LabelScheme::Fixed, Ordering::XY, 5, 5, &vec![(1, 1), (7, 2)]);
    assert_eq!(r, Err(RenderError::InternalInvariant { x: 7, y: 2 }));
}

#[test]
fn duplicate_labels_pass_through_unchanged() {
    let scheme = custom(&["z", "z"], &["9"]);
    let line = render_moves(&scheme, Ordering::XY, 2, 1, &vec![(0, 0), (1, 0)]).unwrap();
    assert_eq!(line, "(z9|z9)");
}

#[test]
fn ordering_names() {
    assert_eq!(Ordering::XY.to_string(), "xy");
    assert_eq!(Ordering::YX.to_string(), "yx");
}

#[test]
fn reorder_swaps_only_under_yx() {
    let (f, s) = Ordering::XY.reorder("left".to_string(), "right".to_string());
    assert_eq!((f.as_str(), s.as_str()), ("left", "right"));
    let (f, s) = Ordering::YX.reorder("left".to_string(), "right".to_string());
    assert_eq!((f.as_str(), s.as_str()), ("right", "left"));
}
