//! The structured wake surface behind the wings of a line force model.

use std::ops::Range;
use vstd::prelude::*;
use vstd::arithmetic::div_mod::lemma_fundamental_div_mod_converse;

use crate::lifting_line::wake::indices::{WakeIndices, lemma_point_indices_cover_the_points};
use crate::line_force_model::wing_indices::{
    belongs_to_some_wing, is_first_wing_containing, lemma_contiguous_wings_are_ordered,
    lemma_every_line_has_one_wing, nr_lines, range_contains, wing_index_from_global,
    wings_are_contiguous,
};

verus! {

/// The wake behind the wings of a line force model: a structured surface of points and panels,
/// both stored stream-wise major.
///
/// The first stream-wise row of points lies on the span lines of the wings. Each wing with `n`
/// span lines has `n + 1` span points, so a row of points holds one point more per wing than a row
/// of panels holds panels. The panel behind span line `i` of wing `w` has the points `i + w` and
/// `i + w + 1` of its row as corners.
///
/// The type parameters are the types of the points, of the panel strengths and of the panel data
/// computed from the corner points of each panel.
pub struct Wake<Point, Strength, Panel> {
    /// Sizes of the wake surface.
    pub indices: WakeIndices,
    /// The points of the wake surface.
    pub points: Vec<Point>,
    /// The velocity at each point of the wake surface, as stored after the last time step.
    pub velocity_at_points: Vec<Point>,
    /// The strength of each panel.
    pub strengths: Vec<Strength>,
    /// Data for each panel, computed from its corner points.
    pub panels: Vec<Panel>,
    /// The range of span lines of each wing of the line force model that the wake belongs to.
    pub wing_indices: Vec<Range<usize>>,
    /// Number of time steps that have been completed.
    pub number_of_time_steps_completed: usize,
}

impl<Point, Strength, Panel> Wake<Point, Strength, Panel> {
    /// The wake is well formed: the wing ranges are contiguous and cover the panels of a row,
    /// each row of points has one point more per wing than a row of panels has panels, there is
    /// one row of points more than rows of panels, and the vectors hold one entry per point or
    /// panel.
    pub open spec fn well_formed(self) -> bool {
        &&& wings_are_contiguous(self.wing_indices@)
        &&& self.indices.nr_panels_along_span == nr_lines(self.wing_indices@)
        &&& self.indices.nr_points_along_span == self.indices.nr_panels_along_span + self.wing_indices@.len()
        &&& self.indices.nr_points_per_line_element == self.indices.nr_panels_per_line_element + 1
        &&& self.indices.nr_points_spec() <= usize::MAX
        &&& self.indices.nr_panels_spec() <= usize::MAX
        &&& self.points@.len() == self.indices.nr_points_spec()
        &&& self.velocity_at_points@.len() == self.indices.nr_points_spec()
        &&& self.strengths@.len() == self.indices.nr_panels_spec()
        &&& self.panels@.len() == self.indices.nr_panels_spec()
    }

    /// The wing that holds the span line with index `span_index`.
    pub open spec fn wing_of(self, span_index: int) -> int {
        choose|k: int| is_first_wing_containing(self.wing_indices@, k, span_index)
    }

    /// Flat index of corner `corner` (0 to 3) of the panel at `stream_index`, `span_index`. The
    /// corners go around the panel: the two points on its leading edge, first the one at the
    /// lower span index, then the two points on its trailing edge, first the one at the higher
    /// span index.
    pub open spec fn corner_point_index(self, stream_index: int, span_index: int, corner: int) -> int {
        let w = self.wing_of(span_index);
        if corner == 0 {
            self.indices.point_index_spec(stream_index, span_index + w)
        } else if corner == 1 {
            self.indices.point_index_spec(stream_index, span_index + 1 + w)
        } else if corner == 2 {
            self.indices.point_index_spec(stream_index + 1, span_index + 1 + w)
        } else {
            self.indices.point_index_spec(stream_index + 1, span_index + w)
        }
    }

    /// Returns the index of the wing that the span line with index `span_index` belongs to.
    pub fn wing_index(&self, span_index: usize) -> (wing_index: usize)
        requires
            belongs_to_some_wing(self.wing_indices@, span_index as int),
        ensures
            is_first_wing_containing(self.wing_indices@, wing_index as int, span_index as int),
            wing_index == self.wing_of(span_index as int),
    {
        let wing_index = wing_index_from_global(self.wing_indices.as_slice(), span_index);
        proof {
            lemma_first_wing_is_unique(self.wing_indices@, wing_index as int, self.wing_of(span_index as int), span_index as int);
        }
        wing_index
    }

    /// Returns the indices of the four points that make up the panel at the given indices.
    ///
    /// The indices go around the panel. The first index is for the corner on the leading edge at
    /// the lower span index.
    pub fn panel_point_indices(&self, panel_stream_index: usize, panel_span_index: usize) -> (point_indices: [usize; 4])
        requires
            self.well_formed(),
            panel_stream_index < self.indices.nr_panels_per_line_element,
            panel_span_index < self.indices.nr_panels_along_span,
        ensures
            forall|corner: int| 0 <= corner < 4 ==> point_indices@[corner] == self.corner_point_index(
                panel_stream_index as int,
                panel_span_index as int,
                corner,
            ),
            forall|corner: int| 0 <= corner < 4 ==> point_indices@[corner] < self.points@.len(),
    {
        proof {
            lemma_every_line_has_one_wing(self.wing_indices@, panel_span_index as int);
        }
        let wing_index = self.wing_index(panel_span_index);
        proof {
            lemma_panel_corners_in_range(*self, panel_stream_index as int, panel_span_index as int);
            assert(0 <= self.corner_point_index(panel_stream_index as int, panel_span_index as int, 0) < self.indices.nr_points_spec());
            assert(0 <= self.corner_point_index(panel_stream_index as int, panel_span_index as int, 1) < self.indices.nr_points_spec());
            assert(0 <= self.corner_point_index(panel_stream_index as int, panel_span_index as int, 2) < self.indices.nr_points_spec());
            assert(0 <= self.corner_point_index(panel_stream_index as int, panel_span_index as int, 3) < self.indices.nr_points_spec());
        }
        [
            self.indices.point_index(panel_stream_index, panel_span_index + wing_index),
            self.indices.point_index(panel_stream_index, panel_span_index + 1 + wing_index),
            self.indices.point_index(panel_stream_index + 1, panel_span_index + 1 + wing_index),
            self.indices.point_index(panel_stream_index + 1, panel_span_index + wing_index),
        ]
    }
}

impl<Point: Copy, Strength, Panel> Wake<Point, Strength, Panel> {
    /// Returns the four points that make up the panel at the given indices, in the order of
    /// `panel_point_indices`.
    pub fn panel_points(&self, panel_stream_index: usize, panel_span_index: usize) -> (panel_points: [Point; 4])
        requires
            self.well_formed(),
            panel_stream_index < self.indices.nr_panels_per_line_element,
            panel_span_index < self.indices.nr_panels_along_span,
        ensures
            forall|corner: int| 0 <= corner < 4 ==> panel_points@[corner] == self.points@[self.corner_point_index(
                panel_stream_index as int,
                panel_span_index as int,
                corner,
            )],
    {
        let point_indices = self.panel_point_indices(panel_stream_index, panel_span_index);
        [
            self.points[point_indices[0]],
            self.points[point_indices[1]],
            self.points[point_indices[2]],
            self.points[point_indices[3]],
        ]
    }
}

/// Only one wing can be the first one that holds a line.
pub proof fn lemma_first_wing_is_unique(wing_indices: Seq<Range<usize>>, a: int, b: int, global_index: int)
    requires
        is_first_wing_containing(wing_indices, a, global_index),
    ensures
        b == (choose|k: int| is_first_wing_containing(wing_indices, k, global_index)) ==> a == b,
        is_first_wing_containing(wing_indices, b, global_index) ==> a == b,
{
    let c = choose|k: int| is_first_wing_containing(wing_indices, k, global_index);
    assert(is_first_wing_containing(wing_indices, c, global_index));
    if a < c {
        assert(!range_contains(wing_indices[a], global_index));
    } else if c < a {
        assert(!range_contains(wing_indices[c], global_index));
    }
    if is_first_wing_containing(wing_indices, b, global_index) {
        if a < b {
            assert(!range_contains(wing_indices[a], global_index));
        } else if b < a {
            assert(!range_contains(wing_indices[b], global_index));
        }
    }
}

/// In a well-formed wake, the corners of every panel are points of the wake, and the span indices
/// of the corners lie in the span points of the panel's own wing: from `start + w` to `end + w`,
/// where the wing `w` holds the span lines from `start` to `end`.
pub proof fn lemma_panel_corners_in_range<Point, Strength, Panel>(
    wake: Wake<Point, Strength, Panel>,
    stream_index: int,
    span_index: int,
)
    requires
        wake.well_formed(),
        0 <= stream_index < wake.indices.nr_panels_per_line_element,
        0 <= span_index < wake.indices.nr_panels_along_span,
    ensures
        ({
            let w = wake.wing_of(span_index);
            let wing = wake.wing_indices@[w];
            &&& 0 <= w < wake.wing_indices@.len()
            &&& range_contains(wing, span_index)
            &&& wing.start + w <= span_index + w
            &&& span_index + 1 + w <= wing.end + w
            &&& span_index + 1 + w < wake.indices.nr_points_along_span
        }),
        forall|corner: int|
            0 <= corner < 4 ==> 0 <= #[trigger] wake.corner_point_index(stream_index, span_index, corner)
                < wake.indices.nr_points_spec(),
{
    let ws = wake.wing_indices@;
    lemma_every_line_has_one_wing(ws, span_index);
    let w0 = choose|k: int| 0 <= k < ws.len() && range_contains(#[trigger] ws[k], span_index);
    assert(is_first_wing_containing(ws, w0, span_index));
    let w = wake.wing_of(span_index);
    lemma_first_wing_is_unique(ws, w0, w, span_index);
    assert(w == w0);
    let n = ws.len() as int;
    if w < n - 1 {
        lemma_contiguous_wings_are_ordered(ws, w, n - 1);
        assert(ws[n - 1].start <= ws[n - 1].end);
    }
    assert(ws[w].end <= nr_lines(ws));
    assert forall|corner: int| 0 <= corner < 4 implies 0 <= #[trigger] wake.corner_point_index(stream_index, span_index, corner)
        < wake.indices.nr_points_spec() by {
        if corner == 0 || corner == 1 {
            lemma_point_indices_cover_the_points(wake.indices, stream_index, span_index + w + if corner == 0 { 0int } else { 1int });
        } else {
            lemma_point_indices_cover_the_points(wake.indices, stream_index + 1, span_index + w + if corner == 3 { 0int } else { 1int });
        }
    }
}

/// A panel and the panel behind it share an edge: the trailing edge of the first is the leading
/// edge of the second.
pub proof fn lemma_consecutive_panels_share_an_edge<Point, Strength, Panel>(
    wake: Wake<Point, Strength, Panel>,
    stream_index: int,
    span_index: int,
)
    requires
        wake.well_formed(),
        0 <= stream_index,
        stream_index + 1 < wake.indices.nr_panels_per_line_element,
        0 <= span_index < wake.indices.nr_panels_along_span,
    ensures
        wake.corner_point_index(stream_index, span_index, 3) == wake.corner_point_index(stream_index + 1, span_index, 0),
        wake.corner_point_index(stream_index, span_index, 2) == wake.corner_point_index(stream_index + 1, span_index, 1),
{
}

/// Two panels side by side behind the same wing share an edge: the edge at the higher span index of
/// the first is the edge at the lower span index of the second.
pub proof fn lemma_neighbouring_panels_of_a_wing_share_an_edge<Point, Strength, Panel>(
    wake: Wake<Point, Strength, Panel>,
    stream_index: int,
    span_index: int,
)
    requires
        wake.well_formed(),
        0 <= stream_index < wake.indices.nr_panels_per_line_element,
        0 <= span_index,
        span_index + 1 < wake.indices.nr_panels_along_span,
        wake.wing_of(span_index) == wake.wing_of(span_index + 1),
    ensures
        wake.corner_point_index(stream_index, span_index, 1) == wake.corner_point_index(stream_index, span_index + 1, 0),
        wake.corner_point_index(stream_index, span_index, 2) == wake.corner_point_index(stream_index, span_index + 1, 3),
{
}

/// The span index, within its row, of corner `corner` of a panel behind span line `span_index`.
pub open spec fn corner_span_index<Point, Strength, Panel>(
    wake: Wake<Point, Strength, Panel>,
    span_index: int,
    corner: int,
) -> int {
    if corner == 1 || corner == 2 {
        span_index + 1 + wake.wing_of(span_index)
    } else {
        span_index + wake.wing_of(span_index)
    }
}

/// The wakes of different wings are separate surfaces: two panels behind different wings have no
/// corner point in common.
pub proof fn lemma_wakes_of_different_wings_share_no_point<Point, Strength, Panel>(
    wake: Wake<Point, Strength, Panel>,
    stream_a: int,
    span_a: int,
    corner_a: int,
    stream_b: int,
    span_b: int,
    corner_b: int,
)
    requires
        wake.well_formed(),
        0 <= stream_a < wake.indices.nr_panels_per_line_element,
        0 <= stream_b < wake.indices.nr_panels_per_line_element,
        0 <= span_a < wake.indices.nr_panels_along_span,
        0 <= span_b < wake.indices.nr_panels_along_span,
        0 <= corner_a < 4,
        0 <= corner_b < 4,
        wake.wing_of(span_a) != wake.wing_of(span_b),
    ensures
        wake.corner_point_index(stream_a, span_a, corner_a) != wake.corner_point_index(stream_b, span_b, corner_b),
{
    lemma_panel_corners_in_range(wake, stream_a, span_a);
    lemma_panel_corners_in_range(wake, stream_b, span_b);
    let wa = wake.wing_of(span_a);
    let wb = wake.wing_of(span_b);
    let col_a = corner_span_index(wake, span_a, corner_a);
    let col_b = corner_span_index(wake, span_b, corner_b);
    let ws = wake.wing_indices@;
    if wa < wb {
        lemma_contiguous_wings_are_ordered(ws, wa, wb);
        assert(col_a < col_b);
    } else {
        lemma_contiguous_wings_are_ordered(ws, wb, wa);
        assert(col_b < col_a);
    }
    let row_a = if corner_a < 2 { stream_a } else { stream_a + 1 };
    let row_b = if corner_b < 2 { stream_b } else { stream_b + 1 };
    let along = wake.indices.nr_points_along_span as int;
    assert(wake.corner_point_index(stream_a, span_a, corner_a) == row_a * along + col_a);
    assert(wake.corner_point_index(stream_b, span_b, corner_b) == row_b * along + col_b);
    if row_a * along + col_a == row_b * along + col_b {
        lemma_fundamental_div_mod_converse(row_a * along + col_a, along, row_a, col_a);
        lemma_fundamental_div_mod_converse(row_b * along + col_b, along, row_b, col_b);
    }
}

} // verus!
