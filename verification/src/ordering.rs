use vstd::prelude::*;

verus! {

/// Which axis's label comes first in a rendered move token.
#[derive(Copy, Clone, PartialEq, Eq, Structural, Debug)]
pub enum Ordering {
    XY,
    YX,
}

/// The pair `(first, second)` that `ordering` makes of an x label and a y label.
pub open spec fn spec_reorder(
    ordering: Ordering,
    x_label: Seq<char>,
    y_label: Seq<char>,
) -> (Seq<char>, Seq<char>) {
    match ordering {
        Ordering::XY => (x_label, y_label),
        Ordering::YX => (y_label, x_label),
    }
}

impl Ordering {
    /// The command-line name of this ordering.
    pub open spec fn spec_name(self) -> Seq<char> {
        match self {
            Ordering::XY => "xy"@,
            Ordering::YX => "yx"@,
        }
    }

    /// Renders this ordering as its command-line name, `"xy"` or `"yx"`.
    pub fn to_string(&self) -> (r: String)
        ensures
            r@ == self.spec_name(),
    {
        match self {
            Ordering::XY => "xy".to_owned(),
            Ordering::YX => "yx".to_owned(),
        }
    }

    /// Puts an x label and a y label into the order this selector asks for.
    pub fn reorder(&self, x_label: String, y_label: String) -> (r: (String, String))
        ensures
            (r.0@, r.1@) == spec_reorder(*self, x_label@, y_label@),
    {
        match self {
            Ordering::XY => (x_label, y_label),
            Ordering::YX => (y_label, x_label),
        }
    }
}

} // verus!
