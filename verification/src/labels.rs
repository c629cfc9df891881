use vstd::prelude::*;

use crate::errors::{Axis, ValidationError};
use crate::text::{decimal_string, letter_string, spec_decimal, spec_letter};

verus! {

/// The largest board dimension the fixed-alphabet scheme can label.
pub const FIXED_MAX: usize = 19;

/// How axis indices become label strings: either by indexing caller-supplied
/// label lists, or algorithmically (a lowercase letter for x, a one-based
/// decimal number for y).
pub enum LabelScheme {
    Custom { x_labels: Vec<String>, y_labels: Vec<String> },
    Fixed,
}

impl LabelScheme {
    /// Whether this scheme can label every intersection of a `width` by
    /// `height` board.
    pub open spec fn spec_valid_for(self, width: int, height: int) -> bool {
        match self {
            LabelScheme::Custom { x_labels, y_labels } => x_labels@.len() >= width
                && y_labels@.len() >= height,
            LabelScheme::Fixed => width <= FIXED_MAX && height <= FIXED_MAX,
        }
    }

    /// Whether `x` may be handed to `x_label`.
    pub open spec fn spec_x_in_range(self, x: int) -> bool {
        match self {
            LabelScheme::Custom { x_labels, .. } => 0 <= x < x_labels@.len(),
            LabelScheme::Fixed => 0 <= x < FIXED_MAX,
        }
    }

    /// Whether `y` may be handed to `y_label`.
    pub open spec fn spec_y_in_range(self, y: int) -> bool {
        match self {
            LabelScheme::Custom { y_labels, .. } => 0 <= y < y_labels@.len(),
            LabelScheme::Fixed => 0 <= y < FIXED_MAX,
        }
    }

    /// The label this scheme gives to column `x`.
    pub open spec fn spec_x_label(self, x: int) -> Seq<char> {
        match self {
            LabelScheme::Custom { x_labels, .. } => x_labels@[x]@,
            LabelScheme::Fixed => seq![spec_letter(x)],
        }
    }

    /// The label this scheme gives to row `y`.
    pub open spec fn spec_y_label(self, y: int) -> Seq<char> {
        match self {
            LabelScheme::Custom { y_labels, .. } => y_labels@[y]@,
            LabelScheme::Fixed => spec_decimal(y + 1),
        }
    }

    /// The diagnostic `validate` reports for a board this scheme cannot label:
    /// the x axis shortfall where there is one, else the y axis shortfall.
    pub open spec fn spec_validation_error(self, width: usize, height: usize) -> ValidationError
        recommends
            !self.spec_valid_for(width as int, height as int),
    {
        match self {
            LabelScheme::Custom { x_labels, y_labels } => if x_labels@.len() < width {
                ValidationError::InsufficientLabels {
                    axis: Axis::X,
                    required: width,
                    supplied: x_labels@.len() as usize,
                }
            } else {
                ValidationError::InsufficientLabels {
                    axis: Axis::Y,
                    required: height,
                    supplied: y_labels@.len() as usize,
                }
            },
            LabelScheme::Fixed => if width > FIXED_MAX {
                ValidationError::BoardTooLarge { axis: Axis::X, size: width, max: FIXED_MAX }
            } else {
                ValidationError::BoardTooLarge { axis: Axis::Y, size: height, max: FIXED_MAX }
            },
        }
    }

    /// Checks that this scheme can label a `width` by `height` board, and
    /// reports the first shortfall (the x axis is checked before the y axis)
    /// exactly as it stands.
    pub fn validate(&self, width: usize, height: usize) -> (r: Result<(), ValidationError>)
        ensures
            r is Ok <==> self.spec_valid_for(width as int, height as int),
            !self.spec_valid_for(width as int, height as int) ==> r == Err::<(), ValidationError>(
                self.spec_validation_error(width, height),
            ),
    {
        match self {
            LabelScheme::Custom { x_labels, y_labels } => {
                if x_labels.len() < width {
                    Err(ValidationError::InsufficientLabels {
                        axis: Axis::X,
                        required: width,
                        supplied: x_labels.len(),
                    })
                } else if y_labels.len() < height {
                    Err(ValidationError::InsufficientLabels {
                        axis: Axis::Y,
                        required: height,
                        supplied: y_labels.len(),
                    })
                } else {
                    Ok(())
                }
            },
            LabelScheme::Fixed => {
                if width > FIXED_MAX {
                    Err(ValidationError::BoardTooLarge {
                        axis: Axis::X,
                        size: width,
                        max: FIXED_MAX,
                    })
                } else if height > FIXED_MAX {
                    Err(ValidationError::BoardTooLarge {
                        axis: Axis::Y,
                        size: height,
                        max: FIXED_MAX,
                    })
                } else {
                    Ok(())
                }
            },
        }
    }

    /// Maps column `x` to its label string.
    pub fn x_label(&self, x: usize) -> (r: String)
        requires
            self.spec_x_in_range(x as int),
        ensures
            r@ == self.spec_x_label(x as int),
    {
        match self {
            LabelScheme::Custom { x_labels, .. } => x_labels[x].clone(),
            LabelScheme::Fixed => letter_string(x),
        }
    }

    /// Maps row `y` to its label string.
    pub fn y_label(&self, y: usize) -> (r: String)
        requires
            self.spec_y_in_range(y as int),
        ensures
            r@ == self.spec_y_label(y as int),
    {
        match self {
            LabelScheme::Custom { y_labels, .. } => y_labels[y].clone(),
            LabelScheme::Fixed => decimal_string(y + 1),
        }
    }
}

/// Once a scheme has validated a board, every coordinate on that board is in
/// range for both label mappings: no per-move bounds failure is possible.
pub proof fn lemma_validated_mapping_in_range(
    scheme: LabelScheme,
    width: int,
    height: int,
    x: int,
    y: int,
)
    requires
        scheme.spec_valid_for(width, height),
        0 <= x < width,
        0 <= y < height,
    ensures
        scheme.spec_x_in_range(x),
        scheme.spec_y_in_range(y),
{
}

} // verus!
