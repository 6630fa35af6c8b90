//! Flat indices of the wake points and panels.

use vstd::prelude::*;
use vstd::arithmetic::div_mod::{lemma_fundamental_div_mod, lemma_fundamental_div_mod_converse};

verus! {

/// Sizes of the structured wake surface. Points and panels are stored in flat vectors, ordered
/// stream-wise major: all entries of the first stream-wise row come first, then the second row,
/// and so on.
#[derive(Clone, Copy, Debug, PartialEq, Eq)]
pub struct WakeIndices {
    pub nr_points_along_span: usize,
    pub nr_panels_along_span: usize,
    pub nr_panels_per_line_element: usize,
    pub nr_points_per_line_element: usize,
}

/// Flat index of the panel at the given stream-wise and span-wise position.
pub open spec fn flat_index(stream_index: int, span_index: int, nr_along_span: int) -> int {
    stream_index * nr_along_span + span_index
}

impl WakeIndices {
    /// Indices for a wake behind a line force model with `nr_span_lines` span lines and
    /// `nr_span_points` span points, with `nr_panels_per_line_element` panels behind each span
    /// line. There is one more point than panels in the stream-wise direction.
    pub fn new(nr_span_lines: usize, nr_span_points: usize, nr_panels_per_line_element: usize) -> (indices: Self)
        requires
            nr_panels_per_line_element < usize::MAX,
        ensures
            indices.nr_panels_along_span == nr_span_lines,
            indices.nr_points_along_span == nr_span_points,
            indices.nr_panels_per_line_element == nr_panels_per_line_element,
            indices.nr_points_per_line_element == nr_panels_per_line_element + 1,
    {
        WakeIndices {
            nr_points_along_span: nr_span_points,
            nr_panels_along_span: nr_span_lines,
            nr_panels_per_line_element,
            nr_points_per_line_element: nr_panels_per_line_element + 1,
        }
    }

    /// The flat panel index, as a mathematical integer.
    pub open spec fn panel_index_spec(self, stream_index: int, span_index: int) -> int {
        flat_index(stream_index, span_index, self.nr_panels_along_span as int)
    }

    /// The flat point index, as a mathematical integer.
    pub open spec fn point_index_spec(self, stream_index: int, span_index: int) -> int {
        flat_index(stream_index, span_index, self.nr_points_along_span as int)
    }

    /// Total number of panels, as a mathematical integer.
    pub open spec fn nr_panels_spec(self) -> int {
        self.nr_panels_along_span * self.nr_panels_per_line_element
    }

    /// Total number of points, as a mathematical integer.
    pub open spec fn nr_points_spec(self) -> int {
        self.nr_points_along_span * self.nr_points_per_line_element
    }

    /// Returns a flatten index for the wake panels. The panels are ordered streamwise-major.
    pub fn panel_index(&self, stream_index: usize, span_index: usize) -> (index: usize)
        requires
            self.panel_index_spec(stream_index as int, span_index as int) <= usize::MAX,
        ensures
            index == self.panel_index_spec(stream_index as int, span_index as int),
    {
        stream_index * self.nr_panels_along_span + span_index
    }

    /// Returns the stream and span indices from a flatten index.
    pub fn reverse_panel_index(&self, flat_index: usize) -> (indices: (usize, usize))
        requires
            self.nr_panels_along_span > 0,
        ensures
            indices.0 == flat_index / self.nr_panels_along_span,
            indices.1 == flat_index % self.nr_panels_along_span,
    {
        let stream_index = flat_index / self.nr_panels_along_span;
        let span_index = flat_index % self.nr_panels_along_span;

        (stream_index, span_index)
    }

    /// Returns a flatten index for the wake points. The points are ordered streamwise-major.
    pub fn point_index(&self, stream_index: usize, span_index: usize) -> (index: usize)
        requires
            self.point_index_spec(stream_index as int, span_index as int) <= usize::MAX,
        ensures
            index == self.point_index_spec(stream_index as int, span_index as int),
    {
        stream_index * self.nr_points_along_span + span_index
    }

    /// Returns the total number of panels.
    pub fn nr_panels(&self) -> (nr: usize)
        requires
            self.nr_panels_spec() <= usize::MAX,
        ensures
            nr == self.nr_panels_spec(),
    {
        self.nr_panels_along_span * self.nr_panels_per_line_element
    }

    /// Returns the total number of points.
    pub fn nr_points(&self) -> (nr: usize)
        requires
            self.nr_points_spec() <= usize::MAX,
        ensures
            nr == self.nr_points_spec(),
    {
        self.nr_points_along_span * self.nr_points_per_line_element
    }
}

/// Going from stream-wise and span-wise indices to the flat index and back gives the same
/// indices: `reverse_panel_index` undoes `panel_index`.
pub proof fn lemma_reverse_panel_index_undoes_panel_index(
    indices: WakeIndices,
    stream_index: int,
    span_index: int,
)
    requires
        0 <= stream_index,
        0 <= span_index < indices.nr_panels_along_span,
    ensures
        indices.panel_index_spec(stream_index, span_index) / (indices.nr_panels_along_span as int)
            == stream_index,
        indices.panel_index_spec(stream_index, span_index) % (indices.nr_panels_along_span as int)
            == span_index,
{
    lemma_fundamental_div_mod_converse(
        indices.panel_index_spec(stream_index, span_index),
        indices.nr_panels_along_span as int,
        stream_index,
        span_index,
    );
}

/// Going from a flat panel index to stream-wise and span-wise indices and back gives the same
/// flat index: `panel_index` undoes `reverse_panel_index`.
pub proof fn lemma_panel_index_undoes_reverse_panel_index(indices: WakeIndices, flat_index: int)
    requires
        0 <= flat_index,
        indices.nr_panels_along_span > 0,
    ensures
        indices.panel_index_spec(
            flat_index / (indices.nr_panels_along_span as int),
            flat_index % (indices.nr_panels_along_span as int),
        ) == flat_index,
        0 <= flat_index % (indices.nr_panels_along_span as int) < indices.nr_panels_along_span,
{
    lemma_fundamental_div_mod(flat_index, indices.nr_panels_along_span as int);
}

/// Every panel of the wake has a flat index below the number of panels, and every flat index below
/// the number of panels belongs to a panel of the wake. The flat index is thus a one-to-one map
/// between the panel grid and `0..nr_panels()`.
pub proof fn lemma_panel_indices_cover_the_panels(indices: WakeIndices, stream_index: int, span_index: int, flat_index: int)
    ensures
        0 <= stream_index < indices.nr_panels_per_line_element && 0 <= span_index < indices.nr_panels_along_span
            ==> 0 <= indices.panel_index_spec(stream_index, span_index) < indices.nr_panels_spec(),
        0 <= flat_index < indices.nr_panels_spec() ==> {
            &&& 0 <= flat_index / (indices.nr_panels_along_span as int) < indices.nr_panels_per_line_element
            &&& 0 <= flat_index % (indices.nr_panels_along_span as int) < indices.nr_panels_along_span
        },
{
    let along = indices.nr_panels_along_span as int;
    let per_line = indices.nr_panels_per_line_element as int;
    if 0 <= stream_index < per_line && 0 <= span_index < along {
        assert(stream_index * along + span_index < per_line * along) by (nonlinear_arith)
            requires
                0 <= stream_index < per_line,
                0 <= span_index < along,
        ;
        assert(0 <= stream_index * along) by (nonlinear_arith)
            requires
                0 <= stream_index,
                0 <= along,
        ;
    }
    if 0 <= flat_index < indices.nr_panels_spec() {
        assert(along > 0) by (nonlinear_arith)
            requires
                0 <= flat_index < along * per_line,
                0 <= per_line,
                0 <= along,
        ;
        lemma_fundamental_div_mod(flat_index, along);
        let q = flat_index / along;
        let r = flat_index % along;
        assert(0 <= q < per_line) by (nonlinear_arith)
            requires
                flat_index == along * q + r,
                0 <= r < along,
                0 <= flat_index < along * per_line,
        ;
    }
}

/// Every point of the wake has a flat index below the number of points.
pub proof fn lemma_point_indices_cover_the_points(indices: WakeIndices, stream_index: int, span_index: int)
    requires
        0 <= stream_index < indices.nr_points_per_line_element,
        0 <= span_index < indices.nr_points_along_span,
    ensures
        0 <= indices.point_index_spec(stream_index, span_index) < indices.nr_points_spec(),
{
    let along = indices.nr_points_along_span as int;
    let per_line = indices.nr_points_per_line_element as int;
    assert(0 <= stream_index * along + span_index < along * per_line) by (nonlinear_arith)
        requires
            0 <= stream_index < per_line,
            0 <= span_index < along,
    ;
}

} // verus!
