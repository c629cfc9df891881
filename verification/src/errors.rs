use vstd::prelude::*;

verus! {

/// One of the two board axes: `X` runs along the columns, `Y` along the rows.
#[derive(Copy, Clone, PartialEq, Eq, Structural, Debug)]
pub enum Axis {
    X,
    Y,
}

/// Why a labeling scheme cannot serve a board of the given dimensions.
#[derive(Copy, Clone, PartialEq, Eq, Structural, Debug)]
pub enum ValidationError {
    /// A label list is shorter than the dimension it must cover:
    /// `required` is the dimension, `supplied` the list's length.
    InsufficientLabels { axis: Axis, required: usize, supplied: usize },
    /// In the fixed-alphabet scheme a dimension exceeds the supported maximum.
    BoardTooLarge { axis: Axis, size: usize, max: usize },
}

/// Why no move list could be rendered.
#[derive(PartialEq, Eq, Debug)]
pub enum RenderError {
    /// The rules engine rejected the game record; its message is kept verbatim.
    Parse(String),
    /// The labeling scheme cannot serve the board.
    Validation(ValidationError),
    /// The rules engine produced a coordinate outside the board it reported,
    /// after validation succeeded: a defect in a collaborator, not user input.
    InternalInvariant { x: usize, y: usize },
}

} // verus!
