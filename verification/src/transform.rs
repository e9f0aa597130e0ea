//! The layout of the three matrices that go with a draw call.
//!
//! The entries themselves are floating-point numbers, which the host
//! computes. What is fixed here is where each of them stands: which entries of
//! a matrix are 0 or 1 whatever the inputs, and which term every other entry
//! holds. The host fills each matrix from its table, entry by entry.
//!
//! A matrix is four arrays of four entries. `row` counts the arrays and `col`
//! the entries within one, both from 0.

use vstd::prelude::*;

verus! {

/// The near clipping plane lies at this many tenths of a unit.
pub const NEAR_PLANE_TENTHS: u32 = 1;

/// The far clipping plane lies at this many tenths of a unit.
pub const FAR_PLANE_TENTHS: u32 = 10240;

/// What one entry of the projection matrix holds. With `f` for the cotangent
/// of half the field of view, and `near` and `far` for the clipping planes:
#[derive(Clone, Copy, Debug, PartialEq, Eq, Structural)]
pub enum ProjectionTerm {
    /// The number 0.
    Zero,
    /// The number 1.
    One,
    /// `f` times the aspect ratio, which is height over width.
    ScaleX,
    /// `f`.
    ScaleY,
    /// `(far + near) / (far - near)`.
    DepthScale,
    /// `-(2 * far * near) / (far - near)`.
    DepthOffset,
}

impl ProjectionTerm {
    /// The term is the same number for every viewport.
    pub open spec fn ignores_viewport(self) -> bool {
        self != ProjectionTerm::ScaleX
    }

    /// The term is the same number for every field of view.
    pub open spec fn ignores_field_of_view(self) -> bool {
        self != ProjectionTerm::ScaleX && self != ProjectionTerm::ScaleY
    }

    /// The term is the same number whatever the inputs.
    pub open spec fn is_fixed(self) -> bool {
        self.ignores_viewport() && self.ignores_field_of_view()
    }

    /// Whether the term is the same number whatever the inputs, so that the
    /// host may compute it once.
    pub fn fixed(&self) -> (fixed: bool)
        ensures
            fixed == self.is_fixed(),
    {
        match self {
            ProjectionTerm::ScaleX => false,
            ProjectionTerm::ScaleY => false,
            _ => true,
        }
    }
}

/// The projection matrix, entry by entry. The 1 in the third array is what
/// makes the perspective divide: it carries the depth into the fourth
/// coordinate.
pub open spec fn projection_layout(row: int, col: int) -> ProjectionTerm {
    if row == 0 && col == 0 {
        ProjectionTerm::ScaleX
    } else if row == 1 && col == 1 {
        ProjectionTerm::ScaleY
    } else if row == 2 && col == 2 {
        ProjectionTerm::DepthScale
    } else if row == 2 && col == 3 {
        ProjectionTerm::One
    } else if row == 3 && col == 2 {
        ProjectionTerm::DepthOffset
    } else {
        ProjectionTerm::Zero
    }
}

/// The term that stands at `row`, `col` of the projection matrix.
pub fn projection_term(row: usize, col: usize) -> (term: ProjectionTerm)
    requires
        row < 4,
        col < 4,
    ensures
        term == projection_layout(row as int, col as int),
{
    if row == 0 && col == 0 {
        ProjectionTerm::ScaleX
    } else if row == 1 && col == 1 {
        ProjectionTerm::ScaleY
    } else if row == 2 && col == 2 {
        ProjectionTerm::DepthScale
    } else if row == 2 && col == 3 {
        ProjectionTerm::One
    } else if row == 3 && col == 2 {
        ProjectionTerm::DepthOffset
    } else {
        ProjectionTerm::Zero
    }
}

/// The number of entries in the first `rows` arrays of the projection matrix
/// that are 0.
pub open spec fn projection_zeros(rows: int) -> int
    decreases rows,
{
    if rows <= 0 {
        0
    } else {
        projection_zeros(rows - 1) + zeros_in_row(rows - 1, 4)
    }
}

/// The number of entries among the first `cols` of array `row` of the
/// projection matrix that are 0.
pub open spec fn zeros_in_row(row: int, cols: int) -> int
    decreases cols,
{
    if cols <= 0 {
        0
    } else if projection_layout(row, cols - 1) == ProjectionTerm::Zero {
        zeros_in_row(row, cols - 1) + 1
    } else {
        zeros_in_row(row, cols - 1)
    }
}

/// The entry that makes the perspective divide is 1 and the entry below it
/// is 0, whatever the viewport and the field of view.
pub proof fn lemma_projection_divide_marker()
    ensures
        projection_layout(2, 3) == ProjectionTerm::One,
        projection_layout(3, 3) == ProjectionTerm::Zero,
        ProjectionTerm::One.is_fixed(),
        ProjectionTerm::Zero.is_fixed(),
{
}

/// Five entries of the projection matrix hold a term, and the other eleven
/// are 0: the ten off the diagonal that are not named, and the last one of
/// the diagonal.
pub proof fn lemma_projection_zero_entries()
    ensures
        forall|row: int, col: int|
            0 <= row < 4 && 0 <= col < 4 ==> (#[trigger] projection_layout(row, col)
                == ProjectionTerm::Zero <==> !((row == col && row < 3) || (row == 2 && col == 3)
                || (row == 3 && col == 2))),
        projection_zeros(4) == 11,
{
    reveal_with_fuel(projection_zeros, 5);
    reveal_with_fuel(zeros_in_row, 5);
}

/// Only the two scale entries depend on the inputs. The depth entries come
/// from the clipping planes alone, and only the first entry depends on the
/// viewport.
pub proof fn lemma_projection_fixed_entries()
    ensures
        forall|row: int, col: int|
            0 <= row < 4 && 0 <= col < 4 ==> (#[trigger] projection_layout(row, col).is_fixed()
                <==> !(row == col && row < 2)),
        forall|row: int, col: int|
            0 <= row < 4 && 0 <= col < 4 ==> (#[trigger] projection_layout(
                row,
                col,
            ).ignores_viewport() <==> !(row == 0 && col == 0)),
        projection_layout(2, 2) == ProjectionTerm::DepthScale,
        projection_layout(3, 2) == ProjectionTerm::DepthOffset,
        ProjectionTerm::DepthScale.is_fixed(),
        ProjectionTerm::DepthOffset.is_fixed(),
{
}

/// An axis of the camera's orthonormal basis.
#[derive(Clone, Copy, Debug, PartialEq, Eq, Structural)]
pub enum Axis {
    /// The normalised cross product of the up hint and the forward axis.
    Right,
    /// The cross product of the forward and the right axis.
    Up,
    /// The normalised look direction.
    Forward,
}

/// A coordinate of a vector.
#[derive(Clone, Copy, Debug, PartialEq, Eq, Structural)]
pub enum Coordinate {
    X,
    Y,
    Z,
}

/// What one entry of the view matrix holds.
#[derive(Clone, Copy, Debug, PartialEq, Eq, Structural)]
pub enum ViewTerm {
    /// The number 0.
    Zero,
    /// The number 1.
    One,
    /// One coordinate of one axis of the camera.
    Basis(Axis, Coordinate),
    /// Minus the dot product of the eye position with one axis.
    Shift(Axis),
}

/// The axis that column `col` of the view matrix belongs to.
pub open spec fn axis_of(col: int) -> Axis {
    if col == 0 {
        Axis::Right
    } else if col == 1 {
        Axis::Up
    } else {
        Axis::Forward
    }
}

/// The coordinate that array `row` of the view matrix belongs to.
pub open spec fn coordinate_of(row: int) -> Coordinate {
    if row == 0 {
        Coordinate::X
    } else if row == 1 {
        Coordinate::Y
    } else {
        Coordinate::Z
    }
}

/// The view matrix, entry by entry: the three axes side by side, one
/// coordinate in each array, the three shifts below them, and a last column
/// of 0, 0, 0, 1.
pub open spec fn view_layout(row: int, col: int) -> ViewTerm {
    if col == 3 {
        if row == 3 {
            ViewTerm::One
        } else {
            ViewTerm::Zero
        }
    } else if row == 3 {
        ViewTerm::Shift(axis_of(col))
    } else {
        ViewTerm::Basis(axis_of(col), coordinate_of(row))
    }
}

/// The term that stands at `row`, `col` of the view matrix.
pub fn view_term(row: usize, col: usize) -> (term: ViewTerm)
    requires
        row < 4,
        col < 4,
    ensures
        term == view_layout(row as int, col as int),
{
    if col == 3 {
        if row == 3 {
            ViewTerm::One
        } else {
            ViewTerm::Zero
        }
    } else {
        let axis = if col == 0 {
            Axis::Right
        } else if col == 1 {
            Axis::Up
        } else {
            Axis::Forward
        };
        if row == 3 {
            ViewTerm::Shift(axis)
        } else if row == 0 {
            ViewTerm::Basis(axis, Coordinate::X)
        } else if row == 1 {
            ViewTerm::Basis(axis, Coordinate::Y)
        } else {
            ViewTerm::Basis(axis, Coordinate::Z)
        }
    }
}

/// The last column of the view matrix is 0, 0, 0, 1, whatever the eye, the
/// direction and the up hint, and no other entry is fixed.
pub proof fn lemma_view_last_column()
    ensures
        view_layout(0, 3) == ViewTerm::Zero,
        view_layout(1, 3) == ViewTerm::Zero,
        view_layout(2, 3) == ViewTerm::Zero,
        view_layout(3, 3) == ViewTerm::One,
        forall|row: int, col: int|
            0 <= row < 4 && 0 <= col < 3 ==> #[trigger] view_layout(row, col) != ViewTerm::Zero
                && view_layout(row, col) != ViewTerm::One,
{
}

/// Each coordinate of each axis stands at exactly one place of the view
/// matrix, each shift at exactly one place of the fourth array, and the shift
/// of an axis stands below that axis.
pub proof fn lemma_view_places(axis: Axis, coordinate: Coordinate)
    ensures
        exists|row: int, col: int|
            0 <= row < 3 && 0 <= col < 3 && #[trigger] view_layout(row, col) == ViewTerm::Basis(
                axis,
                coordinate,
            ) && view_layout(3, col) == ViewTerm::Shift(axis),
        forall|row: int, col: int, other_row: int, other_col: int|
            0 <= row < 4 && 0 <= col < 4 && 0 <= other_row < 4 && 0 <= other_col < 4
                && #[trigger] view_layout(row, col) == ViewTerm::Basis(axis, coordinate)
                && #[trigger] view_layout(other_row, other_col) == ViewTerm::Basis(
                axis,
                coordinate,
            ) ==> row == other_row && col == other_col,
{
    let col: int = match axis {
        Axis::Right => 0,
        Axis::Up => 1,
        Axis::Forward => 2,
    };
    let row: int = match coordinate {
        Coordinate::X => 0,
        Coordinate::Y => 1,
        Coordinate::Z => 2,
    };
    assert(view_layout(row, col) == ViewTerm::Basis(axis, coordinate));
    assert(view_layout(3, col) == ViewTerm::Shift(axis));
}

/// What one entry of the model matrix holds: a rotation about the z axis by
/// the animation phase.
#[derive(Clone, Copy, Debug, PartialEq, Eq, Structural)]
pub enum ModelTerm {
    /// The number 0.
    Zero,
    /// The number 1.
    One,
    /// The cosine of the phase.
    Cosine,
    /// The sine of the phase.
    Sine,
    /// Minus the sine of the phase.
    MinusSine,
}

/// The model matrix, entry by entry.
pub open spec fn model_layout(row: int, col: int) -> ModelTerm {
    if row == col {
        if row < 2 {
            ModelTerm::Cosine
        } else {
            ModelTerm::One
        }
    } else if row == 0 && col == 1 {
        ModelTerm::Sine
    } else if row == 1 && col == 0 {
        ModelTerm::MinusSine
    } else {
        ModelTerm::Zero
    }
}

/// The term that stands at `row`, `col` of the model matrix.
pub fn model_term(row: usize, col: usize) -> (term: ModelTerm)
    requires
        row < 4,
        col < 4,
    ensures
        term == model_layout(row as int, col as int),
{
    if row == col {
        if row < 2 {
            ModelTerm::Cosine
        } else {
            ModelTerm::One
        }
    } else if row == 0 && col == 1 {
        ModelTerm::Sine
    } else if row == 1 && col == 0 {
        ModelTerm::MinusSine
    } else {
        ModelTerm::Zero
    }
}

/// The rotation touches the first two coordinates only: outside the upper
/// left block of two by two the model matrix is the identity.
pub proof fn lemma_model_rotates_in_the_plane()
    ensures
        forall|row: int, col: int|
            0 <= row < 4 && 0 <= col < 4 && (row >= 2 || col >= 2) ==> #[trigger] model_layout(
                row,
                col,
            ) == (if row == col {
                ModelTerm::One
            } else {
                ModelTerm::Zero
            }),
        model_layout(0, 0) == ModelTerm::Cosine,
        model_layout(0, 1) == ModelTerm::Sine,
        model_layout(1, 0) == ModelTerm::MinusSine,
        model_layout(1, 1) == ModelTerm::Cosine,
{
}

} // verus!
